//! The AND combinator: one sigma protocol arguing two statements at once.
//!
//! Both children run under a single shared challenge.  A transcript is
//! accepted exactly when both children accept their halves.

use vstd::prelude::*;

use crate::group::{random_scalar, GroupScalar};
use crate::linear_sigma::{SigmaProver, SigmaVerifier};

verus! {

/// The joint witness: one witness per child.
pub type AndWitness<S0Witness, S1Witness> = (S0Witness, S1Witness);

/// The joint statement: one statement per child.
pub type AndWitnessStatement<S0WitnessStatement, S1WitnessStatement> = (
    S0WitnessStatement,
    S1WitnessStatement,
);

/// The joint commitment: one commitment per child.
pub type AndProverCommitment<S0ProverCommitment, S1ProverCommitment> = (
    S0ProverCommitment,
    S1ProverCommitment,
);

/// The shared challenge, a field element.
pub type AndVerifierChallenge = GroupScalar;

/// The joint response: one response per child.
pub type AndProverResponse<S0ProverResponse, S1ProverResponse> = (
    S0ProverResponse,
    S1ProverResponse,
);

/// The AND prover: the two children side by side.
pub struct AndProver<P0, P1> {
    /// The prover of the left statement.
    pub s0_prover: P0,
    /// The prover of the right statement.
    pub s1_prover: P1,
}

/// The AND verifier: the two children side by side.
pub struct AndVerifier<V0, V1> {
    /// The verifier of the left statement.
    pub s0_verifier: V0,
    /// The verifier of the right statement.
    pub s1_verifier: V1,
}

impl<V0: SigmaVerifier, V1: SigmaVerifier> SigmaVerifier for AndVerifier<V0, V1> {
    type Commitment = (V0::Commitment, V1::Commitment);

    type Response = (V0::Response, V1::Response);

    open spec fn st_wf(self) -> bool {
        self.s0_verifier.st_wf() && self.s1_verifier.st_wf()
    }

    open spec fn c_wf(self, t: (V0::Commitment, V1::Commitment)) -> bool {
        self.s0_verifier.c_wf(t.0) && self.s1_verifier.c_wf(t.1)
    }

    open spec fn r_wf(self, z: (V0::Response, V1::Response)) -> bool {
        self.s0_verifier.r_wf(z.0) && self.s1_verifier.r_wf(z.1)
    }

    open spec fn accepts(self, t: (V0::Commitment, V1::Commitment), c: nat, z: (
        V0::Response,
        V1::Response,
    )) -> bool {
        self.s0_verifier.accepts(t.0, c, z.0) && self.s1_verifier.accepts(t.1, c, z.1)
    }

    open spec fn serial(self, t: (V0::Commitment, V1::Commitment)) -> Seq<u8> {
        self.s0_verifier.serial(t.0) + self.s1_verifier.serial(t.1)
    }

    fn generate_random_challenge(&mut self) -> (c: GroupScalar) {
        random_scalar()
    }

    fn verify_response_to_challenge(
        &self,
        prover_commitment: (V0::Commitment, V1::Commitment),
        random_challenge: GroupScalar,
        prover_response_to_challenge: (V0::Response, V1::Response),
    ) -> (r: bool) {
        let (t0, t1) = prover_commitment;
        let (z0, z1) = prover_response_to_challenge;
        let s0_verification_result = self.s0_verifier.verify_response_to_challenge(
            t0,
            random_challenge,
            z0,
        );
        let s1_verification_result = self.s1_verifier.verify_response_to_challenge(
            t1,
            random_challenge,
            z1,
        );
        s0_verification_result && s1_verification_result
    }

    fn simulate_prover_responses(&self, random_challenge: GroupScalar) -> (tz: (
        (V0::Commitment, V1::Commitment),
        (V0::Response, V1::Response),
    )) {
        let (s0_commitment, s0_response) = self.s0_verifier.simulate_prover_responses(
            random_challenge,
        );
        let (s1_commitment, s1_response) = self.s1_verifier.simulate_prover_responses(
            random_challenge,
        );
        ((s0_commitment, s1_commitment), (s0_response, s1_response))
    }
}

impl<P0: SigmaProver, P1: SigmaProver> SigmaProver for AndProver<P0, P1> {
    type Witness = (P0::Witness, P1::Witness);

    type Commitment = (P0::Commitment, P1::Commitment);

    type Response = (P0::Response, P1::Response);

    type Vf = AndVerifier<P0::Vf, P1::Vf>;

    open spec fn statement(self) -> AndVerifier<P0::Vf, P1::Vf> {
        AndVerifier {
            s0_verifier: self.s0_prover.statement(),
            s1_verifier: self.s1_prover.statement(),
        }
    }

    open spec fn p_wf(self) -> bool {
        self.s0_prover.p_wf() && self.s1_prover.p_wf()
    }

    open spec fn fresh(self) -> bool {
        self.s0_prover.fresh() && self.s1_prover.fresh()
    }

    open spec fn committed(self) -> bool {
        self.s0_prover.committed() && self.s1_prover.committed()
    }

    open spec fn valid_witness(self, witness: (P0::Witness, P1::Witness)) -> bool {
        self.s0_prover.valid_witness(witness.0) && self.s1_prover.valid_witness(witness.1)
    }

    open spec fn opens(self, t: (P0::Commitment, P1::Commitment)) -> bool {
        self.s0_prover.opens(t.0) && self.s1_prover.opens(t.1)
    }

    fn generate_commitment(&mut self, witness: (P0::Witness, P1::Witness)) -> (t: (
        P0::Commitment,
        P1::Commitment,
    )) {
        let (w0, w1) = witness;
        let s0_commitment = self.s0_prover.generate_commitment(w0);
        let s1_commitment = self.s1_prover.generate_commitment(w1);
        (s0_commitment, s1_commitment)
    }

    fn serialize_commitment(&self, commitment: &(P0::Commitment, P1::Commitment)) -> (b: Vec<
        u8,
    >) {
        let mut buf = self.s0_prover.serialize_commitment(&commitment.0);
        let mut tail = self.s1_prover.serialize_commitment(&commitment.1);
        buf.append(&mut tail);
        buf
    }

    fn generate_response_to_challenge(&mut self, random_challenge: GroupScalar) -> (z: (
        P0::Response,
        P1::Response,
    )) {
        let s0_response = self.s0_prover.generate_response_to_challenge(random_challenge);
        let s1_response = self.s1_prover.generate_response_to_challenge(random_challenge);
        proof {
            assert forall|t: (P0::Commitment, P1::Commitment)|
                #[trigger] old(self).opens(t) implies old(self).statement().accepts(
                t,
                random_challenge@,
                (s0_response, s1_response),
            ) by {
                assert(old(self).s0_prover.opens(t.0));
                assert(old(self).s1_prover.opens(t.1));
            }
        }
        (s0_response, s1_response)
    }
}

} // verus!
