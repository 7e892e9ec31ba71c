//! Schnorr's protocol: proof of knowledge of a discrete logarithm.
//!
//! The witness is a scalar `alpha`; the statement is the point
//! `u = alpha * g`.  The prover commits to `u_t = alpha_t * g` for a fresh
//! random `alpha_t`, and answers the challenge `c` with
//! `alpha_z = alpha_t + c * alpha`.  The verifier accepts a transcript
//! `(u_t, c, alpha_z)` exactly when `alpha_z * g == u_t + c * u`.

use vstd::prelude::*;

use crate::group::{
    fq, lemma_fq_small, lemma_sub_fq_add, point_add, point_eq, point_mul, point_sub,
    random_scalar, sub_fq, GroupPoint, GroupScalar,
};
use crate::linear_sigma::{
    GenericSigmaProver, GenericSigmaVerifier, SigmaProver, SigmaVerifier,
};

verus! {

/// The secret witness: the discrete logarithm `alpha` of the statement.
pub type SchnorrWitness = GroupScalar;

/// The statement: the point `u = alpha * g`.
pub type SchnorrWitnessStatement = GroupPoint;

/// The per-session secret `alpha_t`.
pub type SchnorrPerVerifierSecret = GroupScalar;

/// The prover's commitment `u_t = alpha_t * g`.
pub type SchnorrProverCommitment = GroupPoint;

/// The verifier's challenge `c`, a field element.
pub type SchnorrVerifierChallenge = GroupScalar;

/// The prover's response `alpha_z = alpha_t + c * alpha`.
pub type SchnorrProverResponse = GroupScalar;

/// The Schnorr prover.
pub type SchnorrProver = GenericSigmaProver<
    SchnorrWitness,
    SchnorrWitnessStatement,
    SchnorrPerVerifierSecret,
>;

/// The Schnorr verifier.
pub type SchnorrVerifier = GenericSigmaVerifier<SchnorrWitnessStatement>;

/// The Schnorr verification equation over the group model: with `u` the
/// statement's logarithm and `t` the commitment's, the transcript
/// `(t, c, z)` is accepted when `z == t + c * u` in the scalar field.
pub open spec fn schnorr_accepts(u: nat, t: nat, c: nat, z: nat) -> bool {
    z == fq(t as int + fq(c as int * u))
}

impl SigmaVerifier for SchnorrVerifier {
    type Commitment = SchnorrProverCommitment;

    type Response = SchnorrProverResponse;

    open spec fn st_wf(self) -> bool {
        &&& crate::group::is_basepoint(self.g)
        &&& self.witness_statement.wf()
    }

    open spec fn c_wf(self, t: GroupPoint) -> bool {
        t.wf()
    }

    open spec fn r_wf(self, z: GroupScalar) -> bool {
        z.wf()
    }

    open spec fn accepts(self, t: GroupPoint, c: nat, z: GroupScalar) -> bool {
        schnorr_accepts(self.witness_statement.log(), t.log(), c, z@)
    }

    open spec fn serial(self, t: GroupPoint) -> Seq<u8> {
        t.bytes@
    }

    fn generate_random_challenge(&mut self) -> (c: GroupScalar) {
        random_scalar()
    }

    fn verify_response_to_challenge(
        &self,
        prover_commitment: GroupPoint,
        random_challenge: GroupScalar,
        prover_response_to_challenge: GroupScalar,
    ) -> (r: bool) {
        let left = point_mul(&prover_response_to_challenge, &self.g);
        let right = point_add(
            &prover_commitment,
            &point_mul(&random_challenge, &self.witness_statement),
        );
        proof {
            lemma_fq_small(prover_response_to_challenge@);
        }
        point_eq(&left, &right)
    }

    fn simulate_prover_responses(&self, random_challenge: GroupScalar) -> (tz: (
        GroupPoint,
        GroupScalar,
    )) {
        let simulated_prover_response = random_scalar();
        let simulated_prover_commitment = point_sub(
            &point_mul(&simulated_prover_response, &self.g),
            &point_mul(&random_challenge, &self.witness_statement),
        );
        proof {
            let z = simulated_prover_response@;
            let x = fq(random_challenge@ as int * self.witness_statement.log());
            lemma_fq_small(z);
            lemma_sub_fq_add(z as int, x as int);
            assert(simulated_prover_commitment.log() == sub_fq(z as int, x as int));
        }
        (simulated_prover_commitment, simulated_prover_response)
    }
}

impl SigmaProver for SchnorrProver {
    type Witness = SchnorrWitness;

    type Commitment = SchnorrProverCommitment;

    type Response = SchnorrProverResponse;

    type Vf = SchnorrVerifier;

    open spec fn statement(self) -> SchnorrVerifier {
        GenericSigmaVerifier { g: self.g, witness_statement: self.witness_statement }
    }

    open spec fn p_wf(self) -> bool {
        &&& crate::group::is_basepoint(self.g)
        &&& self.witness_statement.wf()
    }

    open spec fn fresh(self) -> bool {
        &&& self.witness is None
        &&& self.per_verifier_secret is None
    }

    open spec fn committed(self) -> bool {
        &&& self.witness matches Some(w) && w.wf() && w@ == self.witness_statement.log()
        &&& self.per_verifier_secret matches Some(a) && a.wf()
    }

    open spec fn valid_witness(self, witness: GroupScalar) -> bool {
        &&& witness.wf()
        &&& witness@ == self.witness_statement.log()
    }

    open spec fn opens(self, t: GroupPoint) -> bool {
        self.per_verifier_secret matches Some(a) && t.log() == a@
    }

    fn generate_commitment(&mut self, witness: GroupScalar) -> (t: GroupPoint) {
        self.witness = Some(witness);
        let per_verifier_secret = random_scalar();
        let per_verifier_commitment = point_mul(&per_verifier_secret, &self.g);
        self.per_verifier_secret = Some(per_verifier_secret);
        proof {
            lemma_fq_small(per_verifier_secret@);
        }
        per_verifier_commitment
    }

    fn serialize_commitment(&self, commitment: &GroupPoint) -> (b: Vec<u8>) {
        vstd::slice::slice_to_vec(commitment.bytes.as_slice())
    }

    fn generate_response_to_challenge(&mut self, random_challenge: GroupScalar) -> (z:
        GroupScalar) {
        let witness = self.witness.unwrap();
        let per_verifier_secret = self.per_verifier_secret.unwrap();
        let z = scalar_add_response(&per_verifier_secret, &witness, &random_challenge);
        proof {
            let a = per_verifier_secret@;
            let u = self.witness_statement.log();
            assert forall|t: GroupPoint| #[trigger] old(self).opens(t) implies old(
                self,
            ).statement().accepts(t, random_challenge@, z) by {
                assert(t.log() == a);
            }
        }
        z
    }
}

/// The honest response `alpha_t + c * alpha` of a sigma prover over the
/// scalar field.
fn scalar_add_response(a_t: &GroupScalar, w: &GroupScalar, c: &GroupScalar) -> (z: GroupScalar)
    requires
        a_t.wf(),
        w.wf(),
        c.wf(),
    ensures
        z.wf(),
        z@ == fq(a_t@ as int + fq(w@ as int * c@)),
{
    let p = crate::group::scalar_mul(w, c);
    crate::group::scalar_add(a_t, &p)
}

} // verus!
