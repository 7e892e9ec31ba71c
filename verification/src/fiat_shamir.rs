//! The Fiat-Shamir transform: a sigma protocol made non-interactive.
//!
//! The challenge is derived by hashing the message, an ASCII `||`
//! separator, and the serialized commitment into a scalar.  Signing and
//! verifying build the same byte stream, so an honest signature is
//! accepted; the contracts of `sign` and `verify` state both sides of
//! this completeness exactly.

use vstd::prelude::*;

use crate::group::{extend_bytes, hash_challenge, hash_to_scalar, GroupScalar};
use crate::linear_sigma::{SigmaProver, SigmaVerifier};

verus! {

/// The secret key of the signature scheme: a witness for the statement.
pub struct FiatShamirSecretKey<Witness> {
    /// The witness.
    pub witness: Witness,
}

/// A Fiat-Shamir signature: the transcript minus the challenge, which the
/// verifier re-derives from the message and the commitment.
#[derive(Debug, Clone, Copy, PartialEq)]
pub struct FiatShamirSignature<ProverCommitment, ProverResponse> {
    /// The prover's commitment.
    pub prover_commitment: ProverCommitment,
    /// The prover's response to the derived challenge.
    pub prover_response: ProverResponse,
}

/// A signature scheme produced by the transform: a prover to sign with and
/// the matching verifier.
pub struct FiatShamir<P: SigmaProver> {
    /// The prover; it also serializes commitments for hashing.
    pub prover: P,
    /// The verifier for the same statement.
    pub verifier: P::Vf,
}

/// The byte stream that the challenge is derived from: the message, the
/// two ASCII pipes, then the serialized commitment.
pub open spec fn fs_hash_input(msg: Seq<u8>, serial: Seq<u8>) -> Seq<u8> {
    msg + seq![124u8, 124u8] + serial
}

/// What a signature scheme promises: an honest signature is accepted, and
/// verification decides exactly the acceptance predicate.
pub trait SignatureScheme: Sized {
    /// The signing key.
    type SecretKey;

    /// The signatures.
    type Signature;

    /// Structural invariant of the scheme value.
    spec fn scheme_wf(self) -> bool;

    /// The scheme can open a signing session.
    spec fn ready(self) -> bool;

    /// The secret key fits the statement being signed under.
    spec fn valid_secret_key(self, secret_key: Self::SecretKey) -> bool;

    /// The signature's components are well formed.
    spec fn sig_wf(self, signature: Self::Signature) -> bool;

    /// The acceptance predicate of the scheme.
    spec fn sig_accepted(self, msg: Seq<u8>, signature: Self::Signature) -> bool;

    /// Sign a message.  The signature produced is accepted.
    fn sign(&mut self, secret_key: Self::SecretKey, message: &[u8]) -> (sig: Self::Signature)
        requires
            old(self).scheme_wf(),
            old(self).ready(),
            old(self).valid_secret_key(secret_key),
        ensures
            final(self).scheme_wf(),
            old(self).sig_wf(sig),
            old(self).sig_accepted(message@, sig),
    ;

    /// Decide whether a signature is accepted for the message.
    fn verify(&self, message: &[u8], signature: Self::Signature) -> (r: bool)
        requires
            self.scheme_wf(),
            self.sig_wf(signature),
        ensures
            r == self.sig_accepted(message@, signature),
    ;
}

impl<P: SigmaProver> FiatShamir<P> {
    /// Derive the challenge for a message and a commitment by hashing
    /// `message || "||" || serialized commitment` into a scalar.
    fn hash_message_and_commitment_to_scalar(
        &self,
        message: &[u8],
        prover_commitment: &P::Commitment,
    ) -> (c: GroupScalar)
        requires
            self.prover.p_wf(),
        ensures
            c.wf(),
            c@ == hash_challenge(
                fs_hash_input(message@, self.prover.statement().serial(*prover_commitment)),
            ),
    {
        let serialized_commitment = self.prover.serialize_commitment(prover_commitment);
        let mut data: Vec<u8> = Vec::new();
        extend_bytes(&mut data, message);
        data.push(124);
        data.push(124);
        extend_bytes(&mut data, serialized_commitment.as_slice());
        proof {
            assert(data@ =~= fs_hash_input(message@, serialized_commitment@));
        }
        hash_to_scalar(data.as_slice())
    }
}

impl<P: SigmaProver> SignatureScheme for FiatShamir<P> {
    type SecretKey = FiatShamirSecretKey<P::Witness>;

    type Signature = FiatShamirSignature<P::Commitment, P::Response>;

    open spec fn scheme_wf(self) -> bool {
        &&& self.prover.p_wf()
        &&& self.prover.statement() == self.verifier
        &&& self.verifier.st_wf()
    }

    open spec fn ready(self) -> bool {
        self.prover.fresh()
    }

    open spec fn valid_secret_key(self, secret_key: FiatShamirSecretKey<P::Witness>) -> bool {
        self.prover.valid_witness(secret_key.witness)
    }

    open spec fn sig_wf(self, signature: FiatShamirSignature<P::Commitment, P::Response>) -> bool {
        &&& self.verifier.c_wf(signature.prover_commitment)
        &&& self.verifier.r_wf(signature.prover_response)
    }

    open spec fn sig_accepted(
        self,
        msg: Seq<u8>,
        signature: FiatShamirSignature<P::Commitment, P::Response>,
    ) -> bool {
        self.verifier.accepts(
            signature.prover_commitment,
            hash_challenge(fs_hash_input(msg, self.verifier.serial(signature.prover_commitment))),
            signature.prover_response,
        )
    }

    fn sign(&mut self, secret_key: FiatShamirSecretKey<P::Witness>, message: &[u8]) -> (sig:
        FiatShamirSignature<P::Commitment, P::Response>) {
        let prover_commitment = self.prover.generate_commitment(secret_key.witness);
        let simulated_challenge = self.hash_message_and_commitment_to_scalar(
            message,
            &prover_commitment,
        );
        let prover_response = self.prover.generate_response_to_challenge(simulated_challenge);
        FiatShamirSignature { prover_commitment, prover_response }
    }

    fn verify(&self, message: &[u8], signature: FiatShamirSignature<P::Commitment, P::Response>)
        -> (r: bool) {
        let simulated_challenge = self.hash_message_and_commitment_to_scalar(
            message,
            &signature.prover_commitment,
        );
        self.verifier.verify_response_to_challenge(
            signature.prover_commitment,
            simulated_challenge,
            signature.prover_response,
        )
    }
}

} // verus!
