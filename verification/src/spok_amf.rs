//! The signature proof of knowledge for the franking relation.
//!
//! The statement tree is fixed: an AND of two ORs,
//! `(Schnorr(pk_S) or Schnorr(J))` and
//! `(ChaumPedersen(pk_J, E_J, J) or Schnorr(R))`,
//! wrapped in the Fiat-Shamir transform.  The honest sender argues the left
//! branch of both ORs, with the sender secret key and the ephemeral scalar
//! behind `E_J` as witnesses.

#![allow(non_snake_case)]

use vstd::prelude::*;

use crate::and_proof::{AndProver, AndVerifier};
use crate::chaum_pedersen::{
    cp_accepts, ChaumPedersenProver, ChaumPedersenProverCommitment, ChaumPedersenVerifier,
    ChaumPedersenWitnessStatement,
};
use crate::fiat_shamir::{fs_hash_input, FiatShamir, FiatShamirSignature, SignatureScheme};
use crate::group::{
    hash_challenge, lemma_point_eq_bytes, sub_fq, GroupPoint, GroupScalar,
};
use crate::linear_sigma::{SigmaProver, SigmaVerifier};
use crate::or_proof::{OrProver, OrProverResponse, OrVerifier, OrWitness};
use crate::schnorr::{schnorr_accepts, SchnorrProver, SchnorrVerifier};

verus! {

/// The witness of the franking relation: one branch choice per OR.
pub type AMFWitness = (OrWitness<GroupScalar, GroupScalar>, OrWitness<GroupScalar, GroupScalar>);

/// The commitment of the franking relation's proof.
pub type AMFCommitment = (
    (GroupPoint, GroupPoint),
    (ChaumPedersenProverCommitment, GroupPoint),
);

/// The response of the franking relation's proof.
pub type AMFResponse = (
    OrProverResponse<GroupScalar, GroupScalar>,
    OrProverResponse<GroupScalar, GroupScalar>,
);

/// The internal Fiat-Shamir signature used in franking, the `pi` part of
/// the external signature.
pub type AMFInternalSignature = FiatShamirSignature<AMFCommitment, AMFResponse>;

/// The composed prover of the franking relation.
pub type AMFProver = AndProver<
    OrProver<SchnorrProver, SchnorrProver>,
    OrProver<ChaumPedersenProver, SchnorrProver>,
>;

/// The composed verifier of the franking relation.
pub type AMFVerifier = AndVerifier<
    OrVerifier<SchnorrVerifier, SchnorrVerifier>,
    OrVerifier<ChaumPedersenVerifier, SchnorrVerifier>,
>;

/// The signature proof of knowledge: the composed protocol under
/// Fiat-Shamir.
pub type AMFSPoK = FiatShamir<AMFProver>;

/// The statement the proof is built for: which points stand in the four
/// leaves.
pub open spec fn spok_statement_is(
    fs: AMFSPoK,
    sender_public_key: GroupPoint,
    judge_public_key: GroupPoint,
    J: GroupPoint,
    R: GroupPoint,
    E_J: GroupPoint,
) -> bool {
    &&& fs.verifier.s0_verifier.s0_verifier.witness_statement == sender_public_key
    &&& fs.verifier.s0_verifier.s1_verifier.witness_statement == J
    &&& fs.verifier.s1_verifier.s0_verifier.witness_statement == (ChaumPedersenWitnessStatement {
        u: judge_public_key,
        v: E_J,
        w: J,
    })
    &&& fs.verifier.s1_verifier.s1_verifier.witness_statement == R
}

/// The serialized commitment of the composed proof: the four leaf
/// commitments' encodings in order.
pub open spec fn amf_serial(t: AMFCommitment) -> Seq<u8> {
    (t.0.0.bytes@ + t.0.1.bytes@) + ((t.1.0.v_t.bytes@ + t.1.0.w_t.bytes@) + t.1.1.bytes@)
}

/// The Fiat-Shamir challenge of the composed proof.
pub open spec fn amf_challenge(msg: Seq<u8>, t: AMFCommitment) -> nat {
    hash_challenge(fs_hash_input(msg, amf_serial(t)))
}

/// The verification equations of the composed proof, written out over the
/// group model: with `c` the derived challenge, the left OR accepts under
/// the split `(c_0, c - c_0)` and the right OR likewise.
pub open spec fn amf_sig_accepts(
    sender_public_key: GroupPoint,
    judge_public_key: GroupPoint,
    J: GroupPoint,
    R: GroupPoint,
    E_J: GroupPoint,
    msg: Seq<u8>,
    pi: AMFInternalSignature,
) -> bool {
    let c = amf_challenge(msg, pi.prover_commitment);
    let t = pi.prover_commitment;
    let r0 = pi.prover_response.0;
    let r1 = pi.prover_response.1;
    &&& schnorr_accepts(sender_public_key.log(), t.0.0.log(), r0.c_0@, r0.z_0@)
    &&& schnorr_accepts(J.log(), t.0.1.log(), sub_fq(c as int, r0.c_0@ as int), r0.z_1@)
    &&& cp_accepts(
        judge_public_key.log(),
        E_J.log(),
        J.log(),
        t.1.0.v_t.log(),
        t.1.0.w_t.log(),
        r1.c_0@,
        r1.z_0@,
    )
    &&& schnorr_accepts(R.log(), t.1.1.log(), sub_fq(c as int, r1.c_0@ as int), r1.z_1@)
}

impl AMFSPoK {
    /// Build the proof system for the franking statement
    /// `(pk_S = g^t or J = g^u) and (DDH(pk_J, E_J, J) or R = g^w)`.
    pub fn new(
        sender_public_key: GroupPoint,
        judge_public_key: GroupPoint,
        J: GroupPoint,
        R: GroupPoint,
        E_J: GroupPoint,
    ) -> (fs: Self)
        requires
            sender_public_key.wf(),
            judge_public_key.wf(),
            J.wf(),
            R.wf(),
            E_J.wf(),
        ensures
            fs.scheme_wf(),
            fs.ready(),
            spok_statement_is(fs, sender_public_key, judge_public_key, J, R, E_J),
    {
        // The left OR: knowledge of the sender's key, or of the judge mark's
        // discrete logarithm.
        let s0_prover = SchnorrProver::new(sender_public_key);
        let s0_verifier = SchnorrVerifier::new(sender_public_key);
        let s1_prover = SchnorrProver::new(J);
        let s1_verifier = SchnorrVerifier::new(J);
        proof {
            lemma_point_eq_bytes(s0_prover.g, s0_verifier.g);
            lemma_point_eq_bytes(s1_prover.g, s1_verifier.g);
        }
        let or0_prover = OrProver {
            s0_prover,
            s0_verifier,
            s1_prover,
            s1_verifier,
            witness: None,
            per_verifier_secret: None,
        };
        let or0_verifier = OrVerifier { s0_verifier, s1_verifier };

        // The right OR: the judge mark is well formed, or the recipient
        // mark's discrete logarithm is known.
        let s3_witness_statement = ChaumPedersenWitnessStatement {
            u: judge_public_key,
            v: E_J,
            w: J,
        };
        let s2_prover = ChaumPedersenProver::new(s3_witness_statement);
        let s2_verifier = ChaumPedersenVerifier::new(s3_witness_statement);
        let s3_prover = SchnorrProver::new(R);
        let s3_verifier = SchnorrVerifier::new(R);
        proof {
            lemma_point_eq_bytes(s2_prover.g, s2_verifier.g);
            lemma_point_eq_bytes(s3_prover.g, s3_verifier.g);
        }
        let or1_prover = OrProver {
            s0_prover: s2_prover,
            s0_verifier: s2_verifier,
            s1_prover: s3_prover,
            s1_verifier: s3_verifier,
            witness: None,
            per_verifier_secret: None,
        };
        let or1_verifier = OrVerifier { s0_verifier: s2_verifier, s1_verifier: s3_verifier };

        // The AND of the two ORs, under Fiat-Shamir.
        let and_prover = AndProver { s0_prover: or0_prover, s1_prover: or1_prover };
        let and_verifier = AndVerifier { s0_verifier: or0_verifier, s1_verifier: or1_verifier };
        FiatShamir { prover: and_prover, verifier: and_verifier }
    }
}

/// Acceptance of the composed scheme is exactly the written-out equations:
/// for a proof system built for the statement `(pk_S, pk_J, J, R, E_J)`,
/// a signature is accepted for a message exactly when `amf_sig_accepts`
/// holds of it.
pub proof fn lemma_spok_acceptance(
    fs: AMFSPoK,
    sender_public_key: GroupPoint,
    judge_public_key: GroupPoint,
    J: GroupPoint,
    R: GroupPoint,
    E_J: GroupPoint,
    msg: Seq<u8>,
    pi: AMFInternalSignature,
)
    requires
        fs.scheme_wf(),
        spok_statement_is(fs, sender_public_key, judge_public_key, J, R, E_J),
    ensures
        fs.sig_accepted(msg, pi) == amf_sig_accepts(
            sender_public_key,
            judge_public_key,
            J,
            R,
            E_J,
            msg,
            pi,
        ),
{
    let t = pi.prover_commitment;
    assert(fs.verifier.serial(t) =~= amf_serial(t));
}

} // verus!
