//! The Chaum-Pedersen protocol: proof that a triple is a DDH triple.
//!
//! The witness is a scalar `beta`; the statement is a triple `(u, v, w)`
//! with the claim `v = beta * g` and `w = beta * u`.  The prover commits to
//! `(v_t, w_t) = (beta_t * g, beta_t * u)` and answers the challenge `c`
//! with `beta_z = beta_t + c * beta`.  The verifier accepts exactly when
//! `beta_z * g == v_t + c * v` and `beta_z * u == w_t + c * w`.

use vstd::prelude::*;

use crate::group::{
    fq, lemma_fq_mul_distrib, lemma_fq_mul_noop, lemma_fq_small, lemma_sub_fq_add, point_add,
    point_eq, point_mul, point_sub, random_scalar, sub_fq, GroupPoint, GroupScalar,
};
use crate::linear_sigma::{
    GenericSigmaProver, GenericSigmaVerifier, SigmaProver, SigmaVerifier,
};

verus! {

/// The secret witness `beta`.
pub type ChaumPedersenWitness = GroupScalar;

/// The statement: a triple `(u, v, w)` claimed to satisfy `v = beta * g`
/// and `w = beta * u`.
#[derive(Clone, Copy)]
pub struct ChaumPedersenWitnessStatement {
    /// The auxiliary base point.
    pub u: GroupPoint,
    /// The point claimed to be `beta * g`.
    pub v: GroupPoint,
    /// The point claimed to be `beta * u`.
    pub w: GroupPoint,
}

/// The per-session secret `beta_t`.
pub type ChaumPedersenPerVerifierSecret = GroupScalar;

/// The prover's commitment `(v_t, w_t) = (beta_t * g, beta_t * u)`.
#[derive(Debug, Clone, Copy, PartialEq)]
pub struct ChaumPedersenProverCommitment {
    /// `beta_t * g`.
    pub v_t: GroupPoint,
    /// `beta_t * u`.
    pub w_t: GroupPoint,
}

/// The verifier's challenge `c`, a field element.
pub type ChaumPedersenVerifierChallenge = GroupScalar;

/// The prover's response `beta_z = beta_t + c * beta`.
pub type ChaumPedersenProverResponse = GroupScalar;

/// The Chaum-Pedersen prover.
pub type ChaumPedersenProver = GenericSigmaProver<
    ChaumPedersenWitness,
    ChaumPedersenWitnessStatement,
    ChaumPedersenPerVerifierSecret,
>;

/// The Chaum-Pedersen verifier.
pub type ChaumPedersenVerifier = GenericSigmaVerifier<ChaumPedersenWitnessStatement>;

/// The statement is well formed: all three points canonical.
pub open spec fn cp_st_wf(st: ChaumPedersenWitnessStatement) -> bool {
    st.u.wf() && st.v.wf() && st.w.wf()
}

/// The Chaum-Pedersen verification equations over the group model, with
/// all points given by their logarithms: `z == v_t + c * v` and
/// `z * u == w_t + c * w` in the scalar field.
pub open spec fn cp_accepts(
    u: nat,
    v: nat,
    w: nat,
    v_t: nat,
    w_t: nat,
    c: nat,
    z: nat,
) -> bool {
    &&& z == fq(v_t as int + fq(c as int * v))
    &&& fq(z as int * u) == fq(w_t as int + fq(c as int * w))
}

impl SigmaVerifier for ChaumPedersenVerifier {
    type Commitment = ChaumPedersenProverCommitment;

    type Response = ChaumPedersenProverResponse;

    open spec fn st_wf(self) -> bool {
        &&& crate::group::is_basepoint(self.g)
        &&& cp_st_wf(self.witness_statement)
    }

    open spec fn c_wf(self, t: ChaumPedersenProverCommitment) -> bool {
        t.v_t.wf() && t.w_t.wf()
    }

    open spec fn r_wf(self, z: GroupScalar) -> bool {
        z.wf()
    }

    open spec fn accepts(self, t: ChaumPedersenProverCommitment, c: nat, z: GroupScalar) -> bool {
        cp_accepts(
            self.witness_statement.u.log(),
            self.witness_statement.v.log(),
            self.witness_statement.w.log(),
            t.v_t.log(),
            t.w_t.log(),
            c,
            z@,
        )
    }

    open spec fn serial(self, t: ChaumPedersenProverCommitment) -> Seq<u8> {
        t.v_t.bytes@ + t.w_t.bytes@
    }

    fn generate_random_challenge(&mut self) -> (c: GroupScalar) {
        random_scalar()
    }

    fn verify_response_to_challenge(
        &self,
        prover_commitment: ChaumPedersenProverCommitment,
        random_challenge: GroupScalar,
        prover_response_to_challenge: GroupScalar,
    ) -> (r: bool) {
        let st = &self.witness_statement;
        let left1 = point_mul(&prover_response_to_challenge, &self.g);
        let right1 = point_add(&prover_commitment.v_t, &point_mul(&random_challenge, &st.v));
        let left2 = point_mul(&prover_response_to_challenge, &st.u);
        let right2 = point_add(&prover_commitment.w_t, &point_mul(&random_challenge, &st.w));
        proof {
            lemma_fq_small(prover_response_to_challenge@);
        }
        let ok1 = point_eq(&left1, &right1);
        let ok2 = point_eq(&left2, &right2);
        ok1 && ok2
    }

    fn simulate_prover_responses(&self, random_challenge: GroupScalar) -> (tz: (
        ChaumPedersenProverCommitment,
        GroupScalar,
    )) {
        let st = &self.witness_statement;
        let simulated_prover_response = random_scalar();
        let v_t = point_sub(
            &point_mul(&simulated_prover_response, &self.g),
            &point_mul(&random_challenge, &st.v),
        );
        let w_t = point_sub(
            &point_mul(&simulated_prover_response, &st.u),
            &point_mul(&random_challenge, &st.w),
        );
        proof {
            let z = simulated_prover_response@;
            let c = random_challenge@;
            let xv = fq(c as int * st.v.log());
            let xw = fq(c as int * st.w.log());
            let zu = fq(z as int * st.u.log());
            lemma_fq_small(z);
            lemma_sub_fq_add(z as int, xv as int);
            assert(v_t.log() == sub_fq(z as int, xv as int));
            lemma_sub_fq_add(zu as int, xw as int);
            assert(w_t.log() == sub_fq(zu as int, xw as int));
            vstd::arithmetic::div_mod::lemma_mod_twice(
                z as int * st.u.log(),
                crate::group::group_order() as int,
            );
        }
        (ChaumPedersenProverCommitment { v_t, w_t }, simulated_prover_response)
    }
}

impl SigmaProver for ChaumPedersenProver {
    type Witness = ChaumPedersenWitness;

    type Commitment = ChaumPedersenProverCommitment;

    type Response = ChaumPedersenProverResponse;

    type Vf = ChaumPedersenVerifier;

    open spec fn statement(self) -> ChaumPedersenVerifier {
        GenericSigmaVerifier { g: self.g, witness_statement: self.witness_statement }
    }

    open spec fn p_wf(self) -> bool {
        &&& crate::group::is_basepoint(self.g)
        &&& cp_st_wf(self.witness_statement)
    }

    open spec fn fresh(self) -> bool {
        &&& self.witness is None
        &&& self.per_verifier_secret is None
    }

    open spec fn committed(self) -> bool {
        &&& self.witness matches Some(b) && self.valid_witness(b)
        &&& self.per_verifier_secret matches Some(a) && a.wf()
    }

    open spec fn valid_witness(self, witness: GroupScalar) -> bool {
        &&& witness.wf()
        &&& self.witness_statement.v.log() == witness@
        &&& self.witness_statement.w.log() == fq(
            witness@ as int * self.witness_statement.u.log(),
        )
    }

    open spec fn opens(self, t: ChaumPedersenProverCommitment) -> bool {
        self.per_verifier_secret matches Some(a) && t.v_t.log() == a@ && t.w_t.log() == fq(
            a@ as int * self.witness_statement.u.log(),
        )
    }

    fn generate_commitment(&mut self, witness: GroupScalar) -> (t: ChaumPedersenProverCommitment) {
        self.witness = Some(witness);
        let per_verifier_secret = random_scalar();
        let per_verifier_v_t = point_mul(&per_verifier_secret, &self.g);
        let per_verifier_w_t = point_mul(&per_verifier_secret, &self.witness_statement.u);
        self.per_verifier_secret = Some(per_verifier_secret);
        proof {
            lemma_fq_small(per_verifier_secret@);
        }
        ChaumPedersenProverCommitment { v_t: per_verifier_v_t, w_t: per_verifier_w_t }
    }

    fn serialize_commitment(&self, commitment: &ChaumPedersenProverCommitment) -> (b: Vec<u8>) {
        let mut buf = vstd::slice::slice_to_vec(commitment.v_t.bytes.as_slice());
        let mut tail = vstd::slice::slice_to_vec(commitment.w_t.bytes.as_slice());
        buf.append(&mut tail);
        buf
    }

    fn generate_response_to_challenge(&mut self, random_challenge: GroupScalar) -> (z:
        GroupScalar) {
        let witness = self.witness.unwrap();
        let per_verifier_secret = self.per_verifier_secret.unwrap();
        let p = crate::group::scalar_mul(&witness, &random_challenge);
        let z = crate::group::scalar_add(&per_verifier_secret, &p);
        proof {
            let a = per_verifier_secret@ as int;
            let b = witness@ as int;
            let c = random_challenge@ as int;
            let u = self.witness_statement.u.log() as int;
            assert forall|t: ChaumPedersenProverCommitment|
                #[trigger] old(self).opens(t) implies old(self).statement().accepts(
                t,
                random_challenge@,
                z,
            ) by {
                lemma_cp_second_equation(a, b, c, u);
            }
        }
        z
    }
}

/// The second Chaum-Pedersen equation holds of the honest response: with
/// `z = a + b * c`, the product `z * u` splits as `a * u + c * (b * u)`
/// in the scalar field.
proof fn lemma_cp_second_equation(a: int, b: int, c: int, u: int)
    ensures
        fq(fq(a + fq(b * c)) * u) == fq(fq(a * u) as int + fq(c * fq(b * u))),
{
    lemma_fq_mul_distrib(a, fq(b * c) as int, u);
    lemma_fq_mul_noop(b * c, u);
    lemma_fq_mul_noop(c, b * u);
    assert(b * c * u == c * (b * u)) by (nonlinear_arith);
}

} // verus!
