//! The OR combinator: one sigma protocol arguing that at least one of two
//! statements holds, without telling which.
//!
//! The prover knows a witness for exactly one branch `b`.  It runs that
//! branch honestly and fakes the other with the simulator under a locally
//! chosen challenge.  The shared challenge `c` is split additively in the
//! scalar field: the response carries `c_0`, and the verifier reconstructs
//! `c_1 = c - c_0`, so the prover is free in exactly one of the two local
//! challenges.  The split must be the same on both sides; the proofs below
//! pin it.

use vstd::prelude::*;

use crate::group::{
    lemma_sub_fq_cancel, random_scalar, scalar_sub, sub_fq, GroupScalar,
};
use crate::linear_sigma::{SigmaProver, SigmaVerifier};

verus! {

/// A witness for one branch of an OR statement: for the left branch when
/// `b` is false, for the right branch when `b` is true.
#[derive(Clone, Copy)]
pub struct OrWitness<S0Witness, S1Witness> {
    /// Which branch the prover can argue honestly.
    pub b: bool,
    /// The witness for the left branch, when `b` is false.
    pub s0_witness: Option<S0Witness>,
    /// The witness for the right branch, when `b` is true.
    pub s1_witness: Option<S1Witness>,
}

/// The joint statement: one statement per branch.
pub type OrWitnessStatement<S0WitnessStatement, S1WitnessStatement> = (
    S0WitnessStatement,
    S1WitnessStatement,
);

/// The joint commitment: one commitment per branch.
pub type OrProverCommitment<S0ProverCommitment, S1ProverCommitment> = (
    S0ProverCommitment,
    S1ProverCommitment,
);

/// The shared challenge, a field element.
pub type OrVerifierChallenge = GroupScalar;

/// The prover's response `(c_0, z_0, z_1)`; the right branch's local
/// challenge is recovered as `c - c_0`.
#[derive(Debug, Clone, Copy, PartialEq)]
pub struct OrProverResponse<S0ProverResponse, S1ProverResponse> {
    /// The left branch's local challenge.
    pub c_0: GroupScalar,
    /// The left branch's response.
    pub z_0: S0ProverResponse,
    /// The right branch's response.
    pub z_1: S1ProverResponse,
}

/// The per-session secrets: the simulated branch's local challenge and
/// response, kept between commitment and response.
#[derive(Clone, Copy)]
pub struct OrPerVerifierSecret<S0ProverResponse, S1ProverResponse> {
    /// The left branch's local challenge, when the left branch is simulated.
    pub s0_challenge: Option<GroupScalar>,
    /// The right branch's local challenge, when the right branch is simulated.
    pub s1_challenge: Option<GroupScalar>,
    /// The left branch's simulated response.
    pub s0_prover_response: Option<S0ProverResponse>,
    /// The right branch's simulated response.
    pub s1_prover_response: Option<S1ProverResponse>,
}

/// The OR prover: the honest branch's prover, both branches' verifiers for
/// simulation, and the per-session state.
pub struct OrProver<P0: SigmaProver, P1: SigmaProver> {
    /// The left branch's prover.
    pub s0_prover: P0,
    /// The left branch's verifier, used to simulate it.
    pub s0_verifier: P0::Vf,
    /// The right branch's prover.
    pub s1_prover: P1,
    /// The right branch's verifier, used to simulate it.
    pub s1_verifier: P1::Vf,
    /// The witness of the open session.
    pub witness: Option<OrWitness<P0::Witness, P1::Witness>>,
    /// The simulated branch's challenge and response of the open session.
    pub per_verifier_secret: Option<OrPerVerifierSecret<P0::Response, P1::Response>>,
}

/// The OR verifier: the two branch verifiers side by side.
pub struct OrVerifier<V0, V1> {
    /// The left branch's verifier.
    pub s0_verifier: V0,
    /// The right branch's verifier.
    pub s1_verifier: V1,
}

impl<V0: SigmaVerifier, V1: SigmaVerifier> SigmaVerifier for OrVerifier<V0, V1> {
    type Commitment = (V0::Commitment, V1::Commitment);

    type Response = OrProverResponse<V0::Response, V1::Response>;

    open spec fn st_wf(self) -> bool {
        self.s0_verifier.st_wf() && self.s1_verifier.st_wf()
    }

    open spec fn c_wf(self, t: (V0::Commitment, V1::Commitment)) -> bool {
        self.s0_verifier.c_wf(t.0) && self.s1_verifier.c_wf(t.1)
    }

    open spec fn r_wf(self, z: OrProverResponse<V0::Response, V1::Response>) -> bool {
        z.c_0.wf() && self.s0_verifier.r_wf(z.z_0) && self.s1_verifier.r_wf(z.z_1)
    }

    open spec fn accepts(
        self,
        t: (V0::Commitment, V1::Commitment),
        c: nat,
        z: OrProverResponse<V0::Response, V1::Response>,
    ) -> bool {
        &&& self.s0_verifier.accepts(t.0, z.c_0@, z.z_0)
        &&& self.s1_verifier.accepts(t.1, sub_fq(c as int, z.c_0@ as int), z.z_1)
    }

    open spec fn serial(self, t: (V0::Commitment, V1::Commitment)) -> Seq<u8> {
        self.s0_verifier.serial(t.0) + self.s1_verifier.serial(t.1)
    }

    fn generate_random_challenge(&mut self) -> (c: GroupScalar) {
        random_scalar()
    }

    fn verify_response_to_challenge(
        &self,
        prover_commitment: (V0::Commitment, V1::Commitment),
        random_challenge: GroupScalar,
        prover_response_to_challenge: OrProverResponse<V0::Response, V1::Response>,
    ) -> (r: bool) {
        let (t0, t1) = prover_commitment;
        let OrProverResponse { c_0, z_0, z_1 } = prover_response_to_challenge;
        let c_1 = scalar_sub(&random_challenge, &c_0);
        let s0_verification_result = self.s0_verifier.verify_response_to_challenge(t0, c_0, z_0);
        let s1_verification_result = self.s1_verifier.verify_response_to_challenge(t1, c_1, z_1);
        s0_verification_result && s1_verification_result
    }

    fn simulate_prover_responses(&self, random_challenge: GroupScalar) -> (tz: (
        (V0::Commitment, V1::Commitment),
        OrProverResponse<V0::Response, V1::Response>,
    )) {
        let c_0 = random_scalar();
        let c_1 = scalar_sub(&random_challenge, &c_0);
        let (s0_commitment, s0_response) = self.s0_verifier.simulate_prover_responses(c_0);
        let (s1_commitment, s1_response) = self.s1_verifier.simulate_prover_responses(c_1);
        (
            (s0_commitment, s1_commitment),
            OrProverResponse { c_0, z_0: s0_response, z_1: s1_response },
        )
    }
}

impl<P0: SigmaProver, P1: SigmaProver> SigmaProver for OrProver<P0, P1> where
    P0::Witness: Copy,
    P1::Witness: Copy,
    P0::Response: Copy,
    P1::Response: Copy,
 {
    type Witness = OrWitness<P0::Witness, P1::Witness>;

    type Commitment = (P0::Commitment, P1::Commitment);

    type Response = OrProverResponse<P0::Response, P1::Response>;

    type Vf = OrVerifier<P0::Vf, P1::Vf>;

    open spec fn statement(self) -> OrVerifier<P0::Vf, P1::Vf> {
        OrVerifier { s0_verifier: self.s0_verifier, s1_verifier: self.s1_verifier }
    }

    open spec fn p_wf(self) -> bool {
        &&& self.s0_prover.p_wf()
        &&& self.s1_prover.p_wf()
        &&& self.s0_prover.statement() == self.s0_verifier
        &&& self.s1_prover.statement() == self.s1_verifier
        &&& self.s0_verifier.st_wf()
        &&& self.s1_verifier.st_wf()
    }

    open spec fn fresh(self) -> bool {
        &&& self.witness is None
        &&& self.per_verifier_secret is None
        &&& self.s0_prover.fresh()
        &&& self.s1_prover.fresh()
    }

    open spec fn committed(self) -> bool {
        &&& self.witness matches Some(w)
        &&& self.per_verifier_secret matches Some(pvs)
        &&& if !w.b {
            &&& self.s0_prover.committed()
            &&& pvs.s1_challenge matches Some(c1) && c1.wf()
            &&& pvs.s1_prover_response matches Some(z1) && self.s1_verifier.r_wf(z1)
        } else {
            &&& self.s1_prover.committed()
            &&& pvs.s0_challenge matches Some(c0) && c0.wf()
            &&& pvs.s0_prover_response matches Some(z0) && self.s0_verifier.r_wf(z0)
        }
    }

    open spec fn valid_witness(self, witness: OrWitness<P0::Witness, P1::Witness>) -> bool {
        if !witness.b {
            witness.s0_witness matches Some(w0) && self.s0_prover.valid_witness(w0)
        } else {
            witness.s1_witness matches Some(w1) && self.s1_prover.valid_witness(w1)
        }
    }

    open spec fn opens(self, t: (P0::Commitment, P1::Commitment)) -> bool {
        &&& self.witness matches Some(w)
        &&& self.per_verifier_secret matches Some(pvs)
        &&& if !w.b {
            &&& self.s0_prover.opens(t.0)
            &&& pvs.s1_challenge matches Some(c1)
            &&& pvs.s1_prover_response matches Some(z1)
            &&& self.s1_verifier.accepts(t.1, c1@, z1)
        } else {
            &&& self.s1_prover.opens(t.1)
            &&& pvs.s0_challenge matches Some(c0)
            &&& pvs.s0_prover_response matches Some(z0)
            &&& self.s0_verifier.accepts(t.0, c0@, z0)
        }
    }

    fn generate_commitment(&mut self, witness: OrWitness<P0::Witness, P1::Witness>) -> (t: (
        P0::Commitment,
        P1::Commitment,
    )) {
        self.witness = Some(witness);
        if !witness.b {
            // The left branch is argued honestly, the right one simulated.
            let s0_commitment = self.s0_prover.generate_commitment(witness.s0_witness.unwrap());
            let s1_challenge = self.s1_verifier.generate_random_challenge();
            let (s1_simulated_commitment, s1_simulated_response) =
                self.s1_verifier.simulate_prover_responses(s1_challenge);
            self.per_verifier_secret = Some(
                OrPerVerifierSecret {
                    s0_challenge: None,
                    s1_challenge: Some(s1_challenge),
                    s0_prover_response: None,
                    s1_prover_response: Some(s1_simulated_response),
                },
            );
            (s0_commitment, s1_simulated_commitment)
        } else {
            // The right branch is argued honestly, the left one simulated.
            let s0_challenge = self.s0_verifier.generate_random_challenge();
            let (s0_simulated_commitment, s0_simulated_response) =
                self.s0_verifier.simulate_prover_responses(s0_challenge);
            self.per_verifier_secret = Some(
                OrPerVerifierSecret {
                    s0_challenge: Some(s0_challenge),
                    s1_challenge: None,
                    s0_prover_response: Some(s0_simulated_response),
                    s1_prover_response: None,
                },
            );
            let s1_commitment = self.s1_prover.generate_commitment(witness.s1_witness.unwrap());
            (s0_simulated_commitment, s1_commitment)
        }
    }

    fn serialize_commitment(&self, commitment: &(P0::Commitment, P1::Commitment)) -> (b: Vec<
        u8,
    >) {
        let mut buf = self.s0_prover.serialize_commitment(&commitment.0);
        let mut tail = self.s1_prover.serialize_commitment(&commitment.1);
        buf.append(&mut tail);
        buf
    }

    fn generate_response_to_challenge(&mut self, random_challenge: GroupScalar) -> (z:
        OrProverResponse<P0::Response, P1::Response>) {
        let witness = self.witness.unwrap();
        let per_verifier_secret = self.per_verifier_secret.unwrap();
        if !witness.b {
            // Split the challenge around the simulated right branch's local
            // challenge: the verifier will recover it as `c - c_0`.
            let s1_challenge = per_verifier_secret.s1_challenge.unwrap();
            let c_0 = scalar_sub(&random_challenge, &s1_challenge);
            let z_0 = self.s0_prover.generate_response_to_challenge(c_0);
            let z = OrProverResponse {
                c_0,
                z_0,
                z_1: per_verifier_secret.s1_prover_response.unwrap(),
            };
            proof {
                assert forall|t: (P0::Commitment, P1::Commitment)|
                    #[trigger] old(self).opens(t) implies old(self).statement().accepts(
                    t,
                    random_challenge@,
                    z,
                ) by {
                    assert(old(self).s0_prover.opens(t.0));
                    lemma_sub_fq_cancel(random_challenge@, s1_challenge@);
                }
            }
            z
        } else {
            let s0_challenge = per_verifier_secret.s0_challenge.unwrap();
            let c_1 = scalar_sub(&random_challenge, &s0_challenge);
            let z_1 = self.s1_prover.generate_response_to_challenge(c_1);
            let z = OrProverResponse {
                c_0: s0_challenge,
                z_0: per_verifier_secret.s0_prover_response.unwrap(),
                z_1,
            };
            proof {
                assert forall|t: (P0::Commitment, P1::Commitment)|
                    #[trigger] old(self).opens(t) implies old(self).statement().accepts(
                    t,
                    random_challenge@,
                    z,
                ) by {
                    assert(old(self).s1_prover.opens(t.1));
                }
            }
            z
        }
    }
}

} // verus!
