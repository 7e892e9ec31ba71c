//! The sigma-protocol contract: a prover and a verifier for a linear
//! relation over the group.
//!
//! A protocol is described by its verifier, a stateless value carrying the
//! public statement.  The prover holds the statement together with the
//! witness and per-session randomness; it commits, then answers one
//! challenge.  The contracts say, once and for all protocols:
//!
//! - completeness: a committed prover's response to any challenge makes the
//!   verifier accept the commitment it produced;
//! - simulator soundness: `simulate_prover_responses` yields an accepting
//!   transcript for the challenge it was given.

use vstd::prelude::*;

use crate::group::{basepoint, is_basepoint, GroupPoint, GroupScalar};

verus! {

/// The verifier's side of a sigma protocol: a statement descriptor with
/// the acceptance predicate on transcripts.
pub trait SigmaVerifier: Sized {
    /// The prover's first message.
    type Commitment;

    /// The prover's answer to a challenge.
    type Response;

    /// The statement is well formed (all points canonical).
    spec fn st_wf(self) -> bool;

    /// The commitment is well formed (all points canonical).
    spec fn c_wf(self, t: Self::Commitment) -> bool;

    /// The response is well formed (all scalars reduced).
    spec fn r_wf(self, z: Self::Response) -> bool;

    /// The acceptance predicate on a transcript, over the mathematical
    /// model of the group: the challenge is a field element.
    spec fn accepts(self, t: Self::Commitment, c: nat, z: Self::Response) -> bool;

    /// The byte serialization of a commitment, as hashed by Fiat-Shamir.
    spec fn serial(self, t: Self::Commitment) -> Seq<u8>;

    /// Draw a uniformly random challenge.
    fn generate_random_challenge(&mut self) -> (c: GroupScalar)
        ensures
            *final(self) == *old(self),
            c.wf(),
    ;

    /// Decide whether the transcript is accepting.
    fn verify_response_to_challenge(
        &self,
        prover_commitment: Self::Commitment,
        random_challenge: GroupScalar,
        prover_response_to_challenge: Self::Response,
    ) -> (r: bool)
        requires
            self.st_wf(),
            self.c_wf(prover_commitment),
            self.r_wf(prover_response_to_challenge),
            random_challenge.wf(),
        ensures
            r == self.accepts(prover_commitment, random_challenge@, prover_response_to_challenge),
    ;

    /// Produce an accepting transcript for the given challenge without any
    /// witness (honest-verifier zero knowledge).
    fn simulate_prover_responses(&self, random_challenge: GroupScalar) -> (tz: (
        Self::Commitment,
        Self::Response,
    ))
        requires
            self.st_wf(),
            random_challenge.wf(),
        ensures
            self.c_wf(tz.0),
            self.r_wf(tz.1),
            self.accepts(tz.0, random_challenge@, tz.1),
    ;
}

/// The prover's side of a sigma protocol.  It is a small state machine:
/// fresh, then committed after `generate_commitment`, then spent after
/// `generate_response_to_challenge`.
pub trait SigmaProver: Sized {
    /// The secret witness for the statement.
    type Witness;

    /// The prover's first message.
    type Commitment;

    /// The prover's answer to a challenge.
    type Response;

    /// The verifier this prover convinces.
    type Vf: SigmaVerifier<Commitment = Self::Commitment, Response = Self::Response>;

    /// The verifier value describing this prover's statement.
    spec fn statement(self) -> Self::Vf;

    /// Structural invariant: generator and statement well formed.
    spec fn p_wf(self) -> bool;

    /// No session was started yet.
    spec fn fresh(self) -> bool;

    /// A session is open: a commitment was produced and the secrets for
    /// answering one challenge are stored.
    spec fn committed(self) -> bool;

    /// The witness proves this prover's statement.
    spec fn valid_witness(self, witness: Self::Witness) -> bool;

    /// The stored session secrets open the commitment `t`: every response
    /// the prover will derive fits it.
    spec fn opens(self, t: Self::Commitment) -> bool;

    /// Start a session: store the witness, draw the session randomness and
    /// derive the commitment from it.
    fn generate_commitment(&mut self, witness: Self::Witness) -> (t: Self::Commitment)
        requires
            old(self).p_wf(),
            old(self).fresh(),
            old(self).valid_witness(witness),
        ensures
            final(self).p_wf(),
            final(self).committed(),
            final(self).statement() == old(self).statement(),
            final(self).opens(t),
            final(self).statement().c_wf(t),
    ;

    /// The bytes of a commitment, as hashed by Fiat-Shamir.
    fn serialize_commitment(&self, commitment: &Self::Commitment) -> (b: Vec<u8>)
        requires
            self.p_wf(),
        ensures
            b@ == self.statement().serial(*commitment),
    ;

    /// Answer the challenge of the open session.  Completeness: whatever
    /// commitment the session opens, the verifier accepts the transcript.
    fn generate_response_to_challenge(&mut self, random_challenge: GroupScalar) -> (z:
        Self::Response)
        requires
            old(self).p_wf(),
            old(self).committed(),
            random_challenge.wf(),
        ensures
            final(self).p_wf(),
            final(self).statement() == old(self).statement(),
            old(self).statement().r_wf(z),
            forall|t: Self::Commitment|
                #[trigger] old(self).opens(t) ==> old(self).statement().accepts(
                    t,
                    random_challenge@,
                    z,
                ),
    ;
}

/// The statement-and-state record that Schnorr and Chaum-Pedersen provers
/// share: the generator, the statement, and the per-session secrets.
#[derive(Clone, Copy)]
pub struct GenericSigmaProver<Witness, WitnessStatement, PerVerifierSecret> {
    /// The group generator.
    pub g: GroupPoint,
    /// The witness of the open session.
    pub witness: Option<Witness>,
    /// The public statement this prover argues.
    pub witness_statement: WitnessStatement,
    /// The randomness of the open session.
    pub per_verifier_secret: Option<PerVerifierSecret>,
}

/// The statement record that Schnorr and Chaum-Pedersen verifiers share.
#[derive(Clone, Copy)]
pub struct GenericSigmaVerifier<WitnessStatement> {
    /// The group generator.
    pub g: GroupPoint,
    /// The public statement being argued.
    pub witness_statement: WitnessStatement,
}

impl<Witness, WitnessStatement, PerVerifierSecret> GenericSigmaProver<
    Witness,
    WitnessStatement,
    PerVerifierSecret,
> {
    /// A fresh prover for the statement, with the group generator filled in.
    pub fn new(witness_statement: WitnessStatement) -> (r: Self)
        ensures
            is_basepoint(r.g),
            r.witness is None,
            r.per_verifier_secret is None,
            r.witness_statement == witness_statement,
    {
        let g = basepoint();
        Self { g, witness: None, witness_statement, per_verifier_secret: None }
    }
}

impl<WitnessStatement> GenericSigmaVerifier<WitnessStatement> {
    /// A verifier for the statement, with the group generator filled in.
    pub fn new(witness_statement: WitnessStatement) -> (r: Self)
        ensures
            is_basepoint(r.g),
            r.witness_statement == witness_statement,
    {
        let g = basepoint();
        Self { g, witness_statement }
    }
}

} // verus!
