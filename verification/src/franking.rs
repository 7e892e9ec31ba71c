//! The franking algorithms: `keygen`, `frank`, `verify`, `judge`.
//!
//! A sender franks a message for one recipient and one judge: the
//! signature carries the marks `J = alpha * pk_J`, `R = beta * pk_R`,
//! `E_J = alpha * g`, `E_R = beta * g` and a proof of the franking
//! relation bound to the message.  The recipient checks its own mark and
//! the proof; the judge checks its mark and the proof.  Completeness --
//! an honest franking satisfies both -- is `lemma_amf_completeness`.

#![allow(non_snake_case)]

use vstd::prelude::*;

use crate::fiat_shamir::{FiatShamirSecretKey, SignatureScheme};
use crate::group::{
    basepoint, fq, lemma_fq_small, point_eq, point_mul, random_scalar, GroupPoint, GroupScalar,
};
use crate::linear_sigma::SigmaProver;
use crate::or_proof::OrWitness;
use crate::spok_amf::{
    amf_sig_accepts, lemma_spok_acceptance, AMFInternalSignature, AMFSPoK,
};

verus! {

/// The three parties of the franking triangle.
#[derive(Debug, Copy, Clone, PartialEq, Eq, Structural)]
pub enum AMFRole {
    /// The party that franks messages.
    Sender,
    /// The party that verifies franked messages it receives.
    Recipient,
    /// The party that adjudicates reported messages.
    Judge,
}

/// A public key: a role tag and a group element `pk = sk * g`.
#[derive(Debug, Copy, Clone, PartialEq)]
pub struct AMFPublicKey {
    /// The owner's role.
    pub role: AMFRole,
    /// The public point.
    pub public_key: GroupPoint,
}

/// A secret key: a role tag and a scalar.
#[derive(Debug, Copy, Clone, PartialEq)]
pub struct AMFSecretKey {
    /// The owner's role.
    pub role: AMFRole,
    /// The secret scalar.
    pub secret_key: GroupScalar,
}

/// The external franking signature `sigma`.
#[derive(Debug, Copy, Clone, PartialEq)]
pub struct AMFSignature {
    /// The proof of the franking relation.
    pub pi: AMFInternalSignature,
    /// The judge mark `alpha * pk_J`.
    pub J: GroupPoint,
    /// The recipient mark `beta * pk_R`.
    pub R: GroupPoint,
    /// The judge ephemeral `alpha * g`.
    pub E_J: GroupPoint,
    /// The recipient ephemeral `beta * g`.
    pub E_R: GroupPoint,
}

/// All parts of an internal signature are canonical encodings.
pub open spec fn amf_internal_signature_wf(pi: AMFInternalSignature) -> bool {
    &&& pi.prover_commitment.0.0.wf()
    &&& pi.prover_commitment.0.1.wf()
    &&& pi.prover_commitment.1.0.v_t.wf()
    &&& pi.prover_commitment.1.0.w_t.wf()
    &&& pi.prover_commitment.1.1.wf()
    &&& pi.prover_response.0.c_0.wf()
    &&& pi.prover_response.0.z_0.wf()
    &&& pi.prover_response.0.z_1.wf()
    &&& pi.prover_response.1.c_0.wf()
    &&& pi.prover_response.1.z_0.wf()
    &&& pi.prover_response.1.z_1.wf()
}

impl AMFSignature {
    /// All parts of the signature are canonical encodings.
    pub open spec fn wf(self) -> bool {
        &&& amf_internal_signature_wf(self.pi)
        &&& self.J.wf()
        &&& self.R.wf()
        &&& self.E_J.wf()
        &&& self.E_R.wf()
    }
}

impl AMFPublicKey {
    /// The point is a canonical encoding.
    pub open spec fn wf(self) -> bool {
        self.public_key.wf()
    }
}

impl AMFSecretKey {
    /// The scalar is reduced.
    pub open spec fn wf(self) -> bool {
        self.secret_key.wf()
    }
}

/// The public and the secret key belong together: same role, and the
/// public point is the secret scalar times the generator.
pub open spec fn amf_keypair(pk: AMFPublicKey, sk: AMFSecretKey) -> bool {
    &&& pk.wf()
    &&& sk.wf()
    &&& pk.role == sk.role
    &&& pk.public_key.log() == sk.secret_key@
}

/// Draw a key pair for a role.
pub fn keygen(role: AMFRole) -> (r: (AMFPublicKey, AMFSecretKey))
    ensures
        amf_keypair(r.0, r.1),
        r.0.role == role,
        r.1.role == role,
{
    let g = basepoint();
    let secret_key = random_scalar();
    let public_key = point_mul(&secret_key, &g);
    proof {
        lemma_fq_small(secret_key@);
        vstd::arithmetic::mul::lemma_mul_basics(secret_key@ as int);
    }
    (AMFPublicKey { role, public_key }, AMFSecretKey { role, secret_key })
}

/// What an honest franking guarantees of its signature: everything is
/// canonical, the proof is accepted for the message under the statement
/// carried by the signature, and the two marks are well formed with
/// respect to the ephemerals -- `J = alpha * pk_J` with `E_J = alpha * g`,
/// and likewise for `R`.
pub open spec fn frank_post(
    amf_signature: AMFSignature,
    sender_public_key: AMFPublicKey,
    recipient_public_key: AMFPublicKey,
    judge_public_key: AMFPublicKey,
    msg: Seq<u8>,
) -> bool {
    &&& amf_signature.wf()
    &&& amf_sig_accepts(
        sender_public_key.public_key,
        judge_public_key.public_key,
        amf_signature.J,
        amf_signature.R,
        amf_signature.E_J,
        msg,
        amf_signature.pi,
    )
    &&& amf_signature.J.log() == fq(
        judge_public_key.public_key.log() as int * amf_signature.E_J.log(),
    )
    &&& amf_signature.R.log() == fq(
        recipient_public_key.public_key.log() as int * amf_signature.E_R.log(),
    )
}

/// Frank a message: draw the ephemerals, compute the marks, and prove the
/// franking relation bound to the message.
pub fn frank(
    sender_secret_key: AMFSecretKey,
    sender_public_key: AMFPublicKey,
    recipient_public_key: AMFPublicKey,
    judge_public_key: AMFPublicKey,
    message: &[u8],
) -> (amf_signature: AMFSignature)
    requires
        sender_secret_key.role == AMFRole::Sender,
        sender_public_key.role == AMFRole::Sender,
        recipient_public_key.role == AMFRole::Recipient,
        judge_public_key.role == AMFRole::Judge,
        sender_public_key.wf(),
        recipient_public_key.wf(),
        judge_public_key.wf(),
        sender_secret_key.wf(),
        sender_public_key.public_key.log() == sender_secret_key.secret_key@,
    ensures
        frank_post(
            amf_signature,
            sender_public_key,
            recipient_public_key,
            judge_public_key,
            message@,
        ),
{
    let g = basepoint();
    let alpha = random_scalar();
    let beta = random_scalar();

    let J = point_mul(&alpha, &judge_public_key.public_key);
    let R = point_mul(&beta, &recipient_public_key.public_key);
    let E_J = point_mul(&alpha, &g);
    let E_R = point_mul(&beta, &g);

    let mut spok = AMFSPoK::new(
        sender_public_key.public_key,
        judge_public_key.public_key,
        J,
        R,
        E_J,
    );
    let witness = (
        OrWitness { b: false, s0_witness: Some(sender_secret_key.secret_key), s1_witness: None },
        OrWitness { b: false, s0_witness: Some(alpha), s1_witness: None },
    );
    let ghost spok0 = spok;
    proof {
        lemma_fq_small(alpha@);
        lemma_fq_small(beta@);
        vstd::arithmetic::mul::lemma_mul_basics(alpha@ as int);
        vstd::arithmetic::mul::lemma_mul_basics(beta@ as int);
        let pr = spok.prover;
        let vf = spok.verifier;
        // The prover argues the same statement the verifier carries, leaf
        // by leaf.
        assert(pr.statement() == vf);
        assert(pr.statement().s0_verifier == vf.s0_verifier);
        assert(pr.statement().s1_verifier == vf.s1_verifier);
        assert(pr.s0_prover.statement().s0_verifier == vf.s0_verifier.s0_verifier);
        assert(pr.s1_prover.statement().s0_verifier == vf.s1_verifier.s0_verifier);
        assert(pr.s0_prover.s0_prover.statement() == pr.s0_prover.s0_verifier);
        assert(pr.s1_prover.s0_prover.statement() == pr.s1_prover.s0_verifier);
        assert(pr.s0_prover.s0_prover.witness_statement == sender_public_key.public_key);
        assert(pr.s1_prover.s0_prover.witness_statement.v == E_J);
        assert(pr.s1_prover.s0_prover.witness_statement.u == judge_public_key.public_key);
        assert(pr.s1_prover.s0_prover.witness_statement.w == J);
        assert(pr.s0_prover.s0_prover.valid_witness(sender_secret_key.secret_key));
        assert(pr.s0_prover.valid_witness(witness.0));
        assert(pr.s1_prover.s0_prover.valid_witness(alpha));
        assert(pr.s1_prover.valid_witness(witness.1));
        assert(pr.valid_witness(witness));
    }
    let pi = spok.sign(FiatShamirSecretKey { witness }, message);
    proof {
        lemma_spok_acceptance(
            spok0,
            sender_public_key.public_key,
            judge_public_key.public_key,
            J,
            R,
            E_J,
            message@,
            pi,
        );
    }
    AMFSignature { pi, J, R, E_J, E_R }
}

/// The recipient's acceptance predicate: the role tags fit the slots, the
/// recipient mark matches the recipient's secret, and the proof is
/// accepted for the message.
pub open spec fn amf_verify_ok(
    recipient_secret_key: AMFSecretKey,
    sender_public_key: AMFPublicKey,
    recipient_public_key: AMFPublicKey,
    judge_public_key: AMFPublicKey,
    msg: Seq<u8>,
    amf_signature: AMFSignature,
) -> bool {
    &&& recipient_secret_key.role == AMFRole::Recipient
    &&& sender_public_key.role == AMFRole::Sender
    &&& recipient_public_key.role == AMFRole::Recipient
    &&& judge_public_key.role == AMFRole::Judge
    &&& amf_signature.R.log() == fq(
        recipient_secret_key.secret_key@ as int * amf_signature.E_R.log(),
    )
    &&& amf_sig_accepts(
        sender_public_key.public_key,
        judge_public_key.public_key,
        amf_signature.J,
        amf_signature.R,
        amf_signature.E_J,
        msg,
        amf_signature.pi,
    )
}

/// The judge's acceptance predicate: the role tags fit the slots, the
/// judge mark matches the judge's secret, and the proof is accepted.
pub open spec fn amf_judge_ok(
    judge_secret_key: AMFSecretKey,
    sender_public_key: AMFPublicKey,
    recipient_public_key: AMFPublicKey,
    judge_public_key: AMFPublicKey,
    msg: Seq<u8>,
    amf_signature: AMFSignature,
) -> bool {
    &&& judge_secret_key.role == AMFRole::Judge
    &&& sender_public_key.role == AMFRole::Sender
    &&& recipient_public_key.role == AMFRole::Recipient
    &&& judge_public_key.role == AMFRole::Judge
    &&& amf_signature.J.log() == fq(
        judge_secret_key.secret_key@ as int * amf_signature.E_J.log(),
    )
    &&& amf_sig_accepts(
        sender_public_key.public_key,
        judge_public_key.public_key,
        amf_signature.J,
        amf_signature.R,
        amf_signature.E_J,
        msg,
        amf_signature.pi,
    )
}

/// The recipient's check: the role tags, the mark equation
/// `R == sk_R * E_R`, and the proof.
pub fn verify(
    recipient_secret_key: AMFSecretKey,
    sender_public_key: AMFPublicKey,
    recipient_public_key: AMFPublicKey,
    judge_public_key: AMFPublicKey,
    message: &[u8],
    amf_signature: AMFSignature,
) -> (r: bool)
    requires
        recipient_secret_key.wf(),
        sender_public_key.wf(),
        recipient_public_key.wf(),
        judge_public_key.wf(),
        amf_signature.wf(),
    ensures
        r == amf_verify_ok(
            recipient_secret_key,
            sender_public_key,
            recipient_public_key,
            judge_public_key,
            message@,
            amf_signature,
        ),
{
    if !(recipient_secret_key.role == AMFRole::Recipient && sender_public_key.role
        == AMFRole::Sender && recipient_public_key.role == AMFRole::Recipient
        && judge_public_key.role == AMFRole::Judge) {
        return false;
    }
    let b1 = point_eq(
        &amf_signature.R,
        &point_mul(&recipient_secret_key.secret_key, &amf_signature.E_R),
    );

    let spok = AMFSPoK::new(
        sender_public_key.public_key,
        judge_public_key.public_key,
        amf_signature.J,
        amf_signature.R,
        amf_signature.E_J,
    );
    let b2 = spok.verify(message, amf_signature.pi);
    proof {
        lemma_spok_acceptance(
            spok,
            sender_public_key.public_key,
            judge_public_key.public_key,
            amf_signature.J,
            amf_signature.R,
            amf_signature.E_J,
            message@,
            amf_signature.pi,
        );
    }
    b1 && b2
}

/// The judge's check: the role tags, the mark equation `J == sk_J * E_J`,
/// and the proof.
pub fn judge(
    judge_secret_key: AMFSecretKey,
    sender_public_key: AMFPublicKey,
    recipient_public_key: AMFPublicKey,
    judge_public_key: AMFPublicKey,
    message: &[u8],
    amf_signature: AMFSignature,
) -> (r: bool)
    requires
        judge_secret_key.wf(),
        sender_public_key.wf(),
        recipient_public_key.wf(),
        judge_public_key.wf(),
        amf_signature.wf(),
    ensures
        r == amf_judge_ok(
            judge_secret_key,
            sender_public_key,
            recipient_public_key,
            judge_public_key,
            message@,
            amf_signature,
        ),
{
    if !(judge_secret_key.role == AMFRole::Judge && sender_public_key.role == AMFRole::Sender
        && recipient_public_key.role == AMFRole::Recipient && judge_public_key.role
        == AMFRole::Judge) {
        return false;
    }
    let b1 = point_eq(
        &amf_signature.J,
        &point_mul(&judge_secret_key.secret_key, &amf_signature.E_J),
    );

    let spok = AMFSPoK::new(
        sender_public_key.public_key,
        judge_public_key.public_key,
        amf_signature.J,
        amf_signature.R,
        amf_signature.E_J,
    );
    let b2 = spok.verify(message, amf_signature.pi);
    proof {
        lemma_spok_acceptance(
            spok,
            sender_public_key.public_key,
            judge_public_key.public_key,
            amf_signature.J,
            amf_signature.R,
            amf_signature.E_J,
            message@,
            amf_signature.pi,
        );
    }
    b1 && b2
}

/// Franking completeness: an honest franking for a sender, a recipient
/// and a judge, each holding a matching key pair with the right role, is
/// accepted both by the recipient's `verify` and by the judge's `judge`.
pub proof fn lemma_amf_completeness(
    sender_public_key: AMFPublicKey,
    recipient_public_key: AMFPublicKey,
    judge_public_key: AMFPublicKey,
    recipient_secret_key: AMFSecretKey,
    judge_secret_key: AMFSecretKey,
    msg: Seq<u8>,
    amf_signature: AMFSignature,
)
    requires
        frank_post(amf_signature, sender_public_key, recipient_public_key, judge_public_key, msg),
        amf_keypair(recipient_public_key, recipient_secret_key),
        amf_keypair(judge_public_key, judge_secret_key),
        sender_public_key.role == AMFRole::Sender,
        recipient_public_key.role == AMFRole::Recipient,
        judge_public_key.role == AMFRole::Judge,
    ensures
        amf_verify_ok(
            recipient_secret_key,
            sender_public_key,
            recipient_public_key,
            judge_public_key,
            msg,
            amf_signature,
        ),
        amf_judge_ok(
            judge_secret_key,
            sender_public_key,
            recipient_public_key,
            judge_public_key,
            msg,
            amf_signature,
        ),
{
}

} // verus!
