//! Byte codec for keys and signatures.
//!
//! Every field is fixed width: a scalar is its canonical 32-byte
//! little-endian form, a point its 32-byte compressed form, a role one
//! byte.  A public or secret key is `role || element` (33 bytes); the
//! external signature is the five proof commitments, the six proof
//! response scalars, and the four marks, 480 bytes in all.  Decoding
//! rejects any non-canonical point, any scalar at or above the group
//! order, and any role byte out of range.

#![allow(non_snake_case)]

use vstd::prelude::*;

use crate::franking::{AMFPublicKey, AMFRole, AMFSecretKey, AMFSignature};
use crate::group::{
    extend_bytes, group_order, le_bytes, lemma_point_eq_bytes, lemma_scalar_eq_bytes,
    point_from_bytes, point_valid, scalar_from_bytes, GroupPoint, GroupScalar,
};
use crate::or_proof::OrProverResponse;
use crate::spok_amf::{amf_serial, AMFInternalSignature};

verus! {

/// The one decoding error: the bytes are not a canonical encoding.
#[derive(Debug, Clone, Copy, PartialEq, Eq, Structural)]
pub enum CodecError {
    /// Wrong length, role byte out of range, non-canonical point, or
    /// unreduced scalar.
    Malformed,
}

/// The wire byte of a role.
pub open spec fn role_byte(r: AMFRole) -> u8 {
    match r {
        AMFRole::Sender => 0u8,
        AMFRole::Recipient => 1u8,
        AMFRole::Judge => 2u8,
    }
}

/// The 33-byte encoding of a public key.
pub open spec fn spec_encode_public_key(pk: AMFPublicKey) -> Seq<u8> {
    seq![role_byte(pk.role)] + pk.public_key.bytes@
}

/// The 33-byte encoding of a secret key.
pub open spec fn spec_encode_secret_key(sk: AMFSecretKey) -> Seq<u8> {
    seq![role_byte(sk.role)] + sk.secret_key.bytes@
}

/// The 96-byte encoding of an OR response: `c_0 || z_0 || z_1`.
pub open spec fn spec_encode_or_response(r: OrProverResponse<GroupScalar, GroupScalar>) -> Seq<
    u8,
> {
    (r.c_0.bytes@ + r.z_0.bytes@) + r.z_1.bytes@
}

/// The 352-byte encoding of the proof `pi`: the commitments, then the
/// two OR responses.
pub open spec fn spec_encode_internal_signature(pi: AMFInternalSignature) -> Seq<u8> {
    (amf_serial(pi.prover_commitment) + spec_encode_or_response(pi.prover_response.0))
        + spec_encode_or_response(pi.prover_response.1)
}

/// The 480-byte encoding of the external signature:
/// `pi || J || R || E_J || E_R`.
pub open spec fn spec_encode_signature(s: AMFSignature) -> Seq<u8> {
    (((spec_encode_internal_signature(s.pi) + s.J.bytes@) + s.R.bytes@) + s.E_J.bytes@)
        + s.E_R.bytes@
}

/// Whether 33 bytes decode to a public key.
pub open spec fn valid_public_key_encoding(b: Seq<u8>) -> bool {
    &&& b.len() == 33
    &&& b[0] <= 2
    &&& point_valid(b.subrange(1, 33))
}

/// Whether 33 bytes decode to a secret key.
pub open spec fn valid_secret_key_encoding(b: Seq<u8>) -> bool {
    &&& b.len() == 33
    &&& b[0] <= 2
    &&& le_bytes(b.subrange(1, 33)) < group_order()
}

/// Whether 480 bytes decode to a signature: nine canonical points and six
/// reduced scalars, at their fixed offsets.
pub open spec fn valid_signature_encoding(b: Seq<u8>) -> bool {
    &&& b.len() == 480
    &&& point_valid(b.subrange(0, 32))
    &&& point_valid(b.subrange(32, 64))
    &&& point_valid(b.subrange(64, 96))
    &&& point_valid(b.subrange(96, 128))
    &&& point_valid(b.subrange(128, 160))
    &&& le_bytes(b.subrange(160, 192)) < group_order()
    &&& le_bytes(b.subrange(192, 224)) < group_order()
    &&& le_bytes(b.subrange(224, 256)) < group_order()
    &&& le_bytes(b.subrange(256, 288)) < group_order()
    &&& le_bytes(b.subrange(288, 320)) < group_order()
    &&& le_bytes(b.subrange(320, 352)) < group_order()
    &&& point_valid(b.subrange(352, 384))
    &&& point_valid(b.subrange(384, 416))
    &&& point_valid(b.subrange(416, 448))
    &&& point_valid(b.subrange(448, 480))
}

/// The wire form of a public key.
#[derive(Debug, Clone, Copy, PartialEq)]
pub struct SerializableAMFPublicKey {
    /// The role byte.
    pub role: u8,
    /// The compressed point.
    pub public_key: [u8; 32],
}

/// The wire form of a secret key.
#[derive(Debug, Clone, Copy, PartialEq)]
pub struct SerializableAMFSecretKey {
    /// The role byte.
    pub role: u8,
    /// The canonical scalar.
    pub secret_key: [u8; 32],
}

/// The wire form of a Chaum-Pedersen commitment.
#[derive(Debug, Clone, Copy, PartialEq)]
pub struct SerializableChaumPedersenProverCommitment {
    /// The compressed `v_t`.
    pub v_t: [u8; 32],
    /// The compressed `w_t`.
    pub w_t: [u8; 32],
}

/// The wire form of an OR response.
#[derive(Debug, Clone, Copy, PartialEq)]
pub struct SerializableOrProverResponse {
    /// The left local challenge.
    pub c_0: [u8; 32],
    /// The left response.
    pub z_0: [u8; 32],
    /// The right response.
    pub z_1: [u8; 32],
}

/// The wire form of the proof `pi`.
#[derive(Debug, Clone, Copy, PartialEq)]
pub struct SerializableAMFInternalSignature {
    /// The left OR's two commitments.
    pub or_prover_commitment_0: ([u8; 32], [u8; 32]),
    /// The right OR's two commitments.
    pub or_prover_commitment_1: (SerializableChaumPedersenProverCommitment, [u8; 32]),
    /// The left OR's response.
    pub or_prover_response_0: SerializableOrProverResponse,
    /// The right OR's response.
    pub or_prover_response_1: SerializableOrProverResponse,
}

/// The wire form of the external signature.
#[derive(Debug, Clone, Copy, PartialEq)]
pub struct SerializableAMFSignature {
    /// The proof.
    pub pi: SerializableAMFInternalSignature,
    /// The judge mark.
    pub J: [u8; 32],
    /// The recipient mark.
    pub R: [u8; 32],
    /// The judge ephemeral.
    pub E_J: [u8; 32],
    /// The recipient ephemeral.
    pub E_R: [u8; 32],
}

/// The wire byte of a role.
fn role_to_byte(r: AMFRole) -> (b: u8)
    ensures
        b == role_byte(r),
{
    match r {
        AMFRole::Sender => 0,
        AMFRole::Recipient => 1,
        AMFRole::Judge => 2,
    }
}

impl From<AMFPublicKey> for SerializableAMFPublicKey {
    fn from(pk: AMFPublicKey) -> (r: Self) {
        SerializableAMFPublicKey { role: role_to_byte(pk.role), public_key: pk.public_key.bytes }
    }
}

impl vstd::std_specs::convert::FromSpecImpl<AMFPublicKey> for SerializableAMFPublicKey {
    open spec fn obeys_from_spec() -> bool {
        true
    }

    open spec fn from_spec(pk: AMFPublicKey) -> Self {
        SerializableAMFPublicKey { role: role_byte(pk.role), public_key: pk.public_key.bytes }
    }
}

impl From<AMFSecretKey> for SerializableAMFSecretKey {
    fn from(sk: AMFSecretKey) -> (r: Self) {
        SerializableAMFSecretKey { role: role_to_byte(sk.role), secret_key: sk.secret_key.bytes }
    }
}

impl vstd::std_specs::convert::FromSpecImpl<AMFSecretKey> for SerializableAMFSecretKey {
    open spec fn obeys_from_spec() -> bool {
        true
    }

    open spec fn from_spec(sk: AMFSecretKey) -> Self {
        SerializableAMFSecretKey { role: role_byte(sk.role), secret_key: sk.secret_key.bytes }
    }
}

impl From<crate::chaum_pedersen::ChaumPedersenProverCommitment>
    for SerializableChaumPedersenProverCommitment {
    fn from(c: crate::chaum_pedersen::ChaumPedersenProverCommitment) -> (r: Self) {
        SerializableChaumPedersenProverCommitment { v_t: c.v_t.bytes, w_t: c.w_t.bytes }
    }
}

impl vstd::std_specs::convert::FromSpecImpl<crate::chaum_pedersen::ChaumPedersenProverCommitment>
    for SerializableChaumPedersenProverCommitment {
    open spec fn obeys_from_spec() -> bool {
        true
    }

    open spec fn from_spec(c: crate::chaum_pedersen::ChaumPedersenProverCommitment) -> Self {
        SerializableChaumPedersenProverCommitment { v_t: c.v_t.bytes, w_t: c.w_t.bytes }
    }
}

impl From<OrProverResponse<GroupScalar, GroupScalar>> for SerializableOrProverResponse {
    fn from(z: OrProverResponse<GroupScalar, GroupScalar>) -> (r: Self) {
        SerializableOrProverResponse { c_0: z.c_0.bytes, z_0: z.z_0.bytes, z_1: z.z_1.bytes }
    }
}

impl vstd::std_specs::convert::FromSpecImpl<OrProverResponse<GroupScalar, GroupScalar>>
    for SerializableOrProverResponse {
    open spec fn obeys_from_spec() -> bool {
        true
    }

    open spec fn from_spec(z: OrProverResponse<GroupScalar, GroupScalar>) -> Self {
        SerializableOrProverResponse { c_0: z.c_0.bytes, z_0: z.z_0.bytes, z_1: z.z_1.bytes }
    }
}

impl From<AMFInternalSignature> for SerializableAMFInternalSignature {
    fn from(pi: AMFInternalSignature) -> (r: Self) {
        SerializableAMFInternalSignature {
            or_prover_commitment_0: (
                pi.prover_commitment.0.0.bytes,
                pi.prover_commitment.0.1.bytes,
            ),
            or_prover_commitment_1: (
                SerializableChaumPedersenProverCommitment::from(pi.prover_commitment.1.0),
                pi.prover_commitment.1.1.bytes,
            ),
            or_prover_response_0: SerializableOrProverResponse::from(pi.prover_response.0),
            or_prover_response_1: SerializableOrProverResponse::from(pi.prover_response.1),
        }
    }
}

impl vstd::std_specs::convert::FromSpecImpl<AMFInternalSignature>
    for SerializableAMFInternalSignature {
    open spec fn obeys_from_spec() -> bool {
        true
    }

    open spec fn from_spec(pi: AMFInternalSignature) -> Self {
        SerializableAMFInternalSignature {
            or_prover_commitment_0: (
                pi.prover_commitment.0.0.bytes,
                pi.prover_commitment.0.1.bytes,
            ),
            or_prover_commitment_1: (
                SerializableChaumPedersenProverCommitment {
                    v_t: pi.prover_commitment.1.0.v_t.bytes,
                    w_t: pi.prover_commitment.1.0.w_t.bytes,
                },
                pi.prover_commitment.1.1.bytes,
            ),
            or_prover_response_0: SerializableOrProverResponse {
                c_0: pi.prover_response.0.c_0.bytes,
                z_0: pi.prover_response.0.z_0.bytes,
                z_1: pi.prover_response.0.z_1.bytes,
            },
            or_prover_response_1: SerializableOrProverResponse {
                c_0: pi.prover_response.1.c_0.bytes,
                z_0: pi.prover_response.1.z_0.bytes,
                z_1: pi.prover_response.1.z_1.bytes,
            },
        }
    }
}

impl From<AMFSignature> for SerializableAMFSignature {
    fn from(s: AMFSignature) -> (r: Self) {
        SerializableAMFSignature {
            pi: SerializableAMFInternalSignature::from(s.pi),
            J: s.J.bytes,
            R: s.R.bytes,
            E_J: s.E_J.bytes,
            E_R: s.E_R.bytes,
        }
    }
}

impl vstd::std_specs::convert::FromSpecImpl<AMFSignature> for SerializableAMFSignature {
    open spec fn obeys_from_spec() -> bool {
        true
    }

    open spec fn from_spec(s: AMFSignature) -> Self {
        SerializableAMFSignature {
            pi: <SerializableAMFInternalSignature as vstd::std_specs::convert::FromSpec<
                AMFInternalSignature,
            >>::from_spec(s.pi),
            J: s.J.bytes,
            R: s.R.bytes,
            E_J: s.E_J.bytes,
            E_R: s.E_R.bytes,
        }
    }
}

impl SerializableAMFPublicKey {
    /// The 33 wire bytes.
    pub fn to_bytes(&self) -> (v: Vec<u8>)
        ensures
            v@ == seq![self.role] + self.public_key@,
    {
        let mut out: Vec<u8> = Vec::new();
        out.push(self.role);
        extend_bytes(&mut out, self.public_key.as_slice());
        proof {
            assert(out@ =~= seq![self.role] + self.public_key@);
        }
        out
    }
}

impl SerializableAMFSecretKey {
    /// The 33 wire bytes.
    pub fn to_bytes(&self) -> (v: Vec<u8>)
        ensures
            v@ == seq![self.role] + self.secret_key@,
    {
        let mut out: Vec<u8> = Vec::new();
        out.push(self.role);
        extend_bytes(&mut out, self.secret_key.as_slice());
        proof {
            assert(out@ =~= seq![self.role] + self.secret_key@);
        }
        out
    }
}

/// Encode a public key as `role || point`, 33 bytes.
pub fn encode_public_key(pk: &AMFPublicKey) -> (v: Vec<u8>)
    ensures
        v@ == spec_encode_public_key(*pk),
        v@.len() == 33,
{
    SerializableAMFPublicKey::from(*pk).to_bytes()
}

/// Encode a secret key as `role || scalar`, 33 bytes.
pub fn encode_secret_key(sk: &AMFSecretKey) -> (v: Vec<u8>)
    ensures
        v@ == spec_encode_secret_key(*sk),
        v@.len() == 33,
{
    SerializableAMFSecretKey::from(*sk).to_bytes()
}

/// Encode a signature as `pi || J || R || E_J || E_R`, 480 bytes.
pub fn encode_signature(s: &AMFSignature) -> (v: Vec<u8>)
    ensures
        v@ == spec_encode_signature(*s),
        v@.len() == 480,
{
    let w = SerializableAMFSignature::from(*s);
    let mut out: Vec<u8> = Vec::new();
    extend_bytes(&mut out, w.pi.or_prover_commitment_0.0.as_slice());
    extend_bytes(&mut out, w.pi.or_prover_commitment_0.1.as_slice());
    extend_bytes(&mut out, w.pi.or_prover_commitment_1.0.v_t.as_slice());
    extend_bytes(&mut out, w.pi.or_prover_commitment_1.0.w_t.as_slice());
    extend_bytes(&mut out, w.pi.or_prover_commitment_1.1.as_slice());
    extend_bytes(&mut out, w.pi.or_prover_response_0.c_0.as_slice());
    extend_bytes(&mut out, w.pi.or_prover_response_0.z_0.as_slice());
    extend_bytes(&mut out, w.pi.or_prover_response_0.z_1.as_slice());
    extend_bytes(&mut out, w.pi.or_prover_response_1.c_0.as_slice());
    extend_bytes(&mut out, w.pi.or_prover_response_1.z_0.as_slice());
    extend_bytes(&mut out, w.pi.or_prover_response_1.z_1.as_slice());
    extend_bytes(&mut out, w.J.as_slice());
    extend_bytes(&mut out, w.R.as_slice());
    extend_bytes(&mut out, w.E_J.as_slice());
    extend_bytes(&mut out, w.E_R.as_slice());
    proof {
        assert(out@ =~= spec_encode_signature(*s));
    }
    out
}

/// Copy 32 bytes out of a slice.
fn read32(b: &[u8], off: usize) -> (r: [u8; 32])
    requires
        off + 32 <= b@.len(),
    ensures
        r@ == b@.subrange(off as int, off as int + 32),
{
    let n = b.len();
    let mut out: [u8; 32] = [0u8; 32];
    let mut i: usize = 0;
    while i < 32
        invariant
            i <= 32,
            off + 32 <= n == b@.len(),
            forall|j: int| 0 <= j < i ==> out@[j] == b@[off + j],
        decreases 32 - i,
    {
        out[i] = b[off + i];
        i += 1;
    }
    proof {
        assert(out@ =~= b@.subrange(off as int, off as int + 32));
    }
    out
}

/// Decode the canonical point at an offset.
fn decode_point_at(b: &[u8], off: usize) -> (r: Option<GroupPoint>)
    requires
        off + 32 <= b@.len(),
    ensures
        r is Some <==> point_valid(b@.subrange(off as int, off as int + 32)),
        r matches Some(p) ==> p.bytes@ == b@.subrange(off as int, off as int + 32) && p.wf(),
{
    let arr = read32(b, off);
    point_from_bytes(&arr)
}

/// Decode the reduced scalar at an offset.
fn decode_scalar_at(b: &[u8], off: usize) -> (r: Option<GroupScalar>)
    requires
        off + 32 <= b@.len(),
    ensures
        r is Some <==> le_bytes(b@.subrange(off as int, off as int + 32)) < group_order(),
        r matches Some(s) ==> s.bytes@ == b@.subrange(off as int, off as int + 32) && s.wf(),
{
    let arr = read32(b, off);
    scalar_from_bytes(&arr)
}

/// Decode a public key.  Succeeds exactly on the valid 33-byte encodings,
/// and the decoded key encodes back to the input.
pub fn decode_public_key(b: &[u8]) -> (r: Result<AMFPublicKey, CodecError>)
    ensures
        r is Ok <==> valid_public_key_encoding(b@),
        r matches Ok(pk) ==> pk.wf() && spec_encode_public_key(pk) == b@,
        r matches Err(e) ==> e == CodecError::Malformed,
{
    if b.len() != 33 {
        return Err(CodecError::Malformed);
    }
    if b[0] > 2 {
        return Err(CodecError::Malformed);
    }
    let role = if b[0] == 0 {
        AMFRole::Sender
    } else if b[0] == 1 {
        AMFRole::Recipient
    } else {
        AMFRole::Judge
    };
    match decode_point_at(b, 1) {
        Some(public_key) => {
            let pk = AMFPublicKey { role, public_key };
            proof {
                assert(spec_encode_public_key(pk) =~= b@);
            }
            Ok(pk)
        },
        None => Err(CodecError::Malformed),
    }
}

/// Decode a secret key.  Succeeds exactly on the valid 33-byte encodings,
/// and the decoded key encodes back to the input.
pub fn decode_secret_key(b: &[u8]) -> (r: Result<AMFSecretKey, CodecError>)
    ensures
        r is Ok <==> valid_secret_key_encoding(b@),
        r matches Ok(sk) ==> sk.wf() && spec_encode_secret_key(sk) == b@,
        r matches Err(e) ==> e == CodecError::Malformed,
{
    if b.len() != 33 {
        return Err(CodecError::Malformed);
    }
    if b[0] > 2 {
        return Err(CodecError::Malformed);
    }
    let role = if b[0] == 0 {
        AMFRole::Sender
    } else if b[0] == 1 {
        AMFRole::Recipient
    } else {
        AMFRole::Judge
    };
    match decode_scalar_at(b, 1) {
        Some(secret_key) => {
            let sk = AMFSecretKey { role, secret_key };
            proof {
                assert(spec_encode_secret_key(sk) =~= b@);
            }
            Ok(sk)
        },
        None => Err(CodecError::Malformed),
    }
}

/// Decode a signature.  Succeeds exactly on the valid 480-byte encodings,
/// and the decoded signature encodes back to the input.
pub fn decode_signature(b: &[u8]) -> (r: Result<AMFSignature, CodecError>)
    ensures
        r is Ok <==> valid_signature_encoding(b@),
        r matches Ok(s) ==> s.wf() && spec_encode_signature(s) == b@,
        r matches Err(e) ==> e == CodecError::Malformed,
{
    if b.len() != 480 {
        return Err(CodecError::Malformed);
    }
    let t00 = match decode_point_at(b, 0) {
        Some(p) => p,
        None => { return Err(CodecError::Malformed) },
    };
    let t01 = match decode_point_at(b, 32) {
        Some(p) => p,
        None => { return Err(CodecError::Malformed) },
    };
    let v_t = match decode_point_at(b, 64) {
        Some(p) => p,
        None => { return Err(CodecError::Malformed) },
    };
    let w_t = match decode_point_at(b, 96) {
        Some(p) => p,
        None => { return Err(CodecError::Malformed) },
    };
    let t11 = match decode_point_at(b, 128) {
        Some(p) => p,
        None => { return Err(CodecError::Malformed) },
    };
    let c0_0 = match decode_scalar_at(b, 160) {
        Some(s) => s,
        None => { return Err(CodecError::Malformed) },
    };
    let z0_0 = match decode_scalar_at(b, 192) {
        Some(s) => s,
        None => { return Err(CodecError::Malformed) },
    };
    let z0_1 = match decode_scalar_at(b, 224) {
        Some(s) => s,
        None => { return Err(CodecError::Malformed) },
    };
    let c1_0 = match decode_scalar_at(b, 256) {
        Some(s) => s,
        None => { return Err(CodecError::Malformed) },
    };
    let z1_0 = match decode_scalar_at(b, 288) {
        Some(s) => s,
        None => { return Err(CodecError::Malformed) },
    };
    let z1_1 = match decode_scalar_at(b, 320) {
        Some(s) => s,
        None => { return Err(CodecError::Malformed) },
    };
    let J = match decode_point_at(b, 352) {
        Some(p) => p,
        None => { return Err(CodecError::Malformed) },
    };
    let R = match decode_point_at(b, 384) {
        Some(p) => p,
        None => { return Err(CodecError::Malformed) },
    };
    let E_J = match decode_point_at(b, 416) {
        Some(p) => p,
        None => { return Err(CodecError::Malformed) },
    };
    let E_R = match decode_point_at(b, 448) {
        Some(p) => p,
        None => { return Err(CodecError::Malformed) },
    };
    let pi = crate::fiat_shamir::FiatShamirSignature {
        prover_commitment: (
            (t00, t01),
            (crate::chaum_pedersen::ChaumPedersenProverCommitment { v_t, w_t }, t11),
        ),
        prover_response: (
            OrProverResponse { c_0: c0_0, z_0: z0_0, z_1: z0_1 },
            OrProverResponse { c_0: c1_0, z_0: z1_0, z_1: z1_1 },
        ),
    };
    let s = AMFSignature { pi, J, R, E_J, E_R };
    proof {
        assert(spec_encode_signature(s) =~= b@);
    }
    Ok(s)
}

/// The encoding of a well-formed public key is a valid encoding.
pub proof fn lemma_encode_public_key_valid(pk: AMFPublicKey)
    requires
        pk.wf(),
    ensures
        valid_public_key_encoding(spec_encode_public_key(pk)),
{
    assert(spec_encode_public_key(pk).subrange(1, 33) =~= pk.public_key.bytes@);
}

/// The encoding of a well-formed secret key is a valid encoding.
pub proof fn lemma_encode_secret_key_valid(sk: AMFSecretKey)
    requires
        sk.wf(),
    ensures
        valid_secret_key_encoding(spec_encode_secret_key(sk)),
{
    assert(spec_encode_secret_key(sk).subrange(1, 33) =~= sk.secret_key.bytes@);
}

/// The encoding of a well-formed signature is a valid encoding.
pub proof fn lemma_encode_signature_valid(s: AMFSignature)
    requires
        s.wf(),
    ensures
        valid_signature_encoding(spec_encode_signature(s)),
{
    let b = spec_encode_signature(s);
    assert(b.subrange(0, 32) =~= s.pi.prover_commitment.0.0.bytes@);
    assert(b.subrange(32, 64) =~= s.pi.prover_commitment.0.1.bytes@);
    assert(b.subrange(64, 96) =~= s.pi.prover_commitment.1.0.v_t.bytes@);
    assert(b.subrange(96, 128) =~= s.pi.prover_commitment.1.0.w_t.bytes@);
    assert(b.subrange(128, 160) =~= s.pi.prover_commitment.1.1.bytes@);
    assert(b.subrange(160, 192) =~= s.pi.prover_response.0.c_0.bytes@);
    assert(b.subrange(192, 224) =~= s.pi.prover_response.0.z_0.bytes@);
    assert(b.subrange(224, 256) =~= s.pi.prover_response.0.z_1.bytes@);
    assert(b.subrange(256, 288) =~= s.pi.prover_response.1.c_0.bytes@);
    assert(b.subrange(288, 320) =~= s.pi.prover_response.1.z_0.bytes@);
    assert(b.subrange(320, 352) =~= s.pi.prover_response.1.z_1.bytes@);
    assert(b.subrange(352, 384) =~= s.J.bytes@);
    assert(b.subrange(384, 416) =~= s.R.bytes@);
    assert(b.subrange(416, 448) =~= s.E_J.bytes@);
    assert(b.subrange(448, 480) =~= s.E_R.bytes@);
}

/// The public key encoding is injective: together with the decoder's
/// contract, decoding an encoded key gives the key back.
pub proof fn lemma_encode_public_key_injective(a: AMFPublicKey, b: AMFPublicKey)
    requires
        spec_encode_public_key(a) == spec_encode_public_key(b),
    ensures
        a == b,
{
    assert(role_byte(a.role) == spec_encode_public_key(a)[0]);
    assert(spec_encode_public_key(a).subrange(1, 33) =~= a.public_key.bytes@);
    assert(spec_encode_public_key(b).subrange(1, 33) =~= b.public_key.bytes@);
    lemma_point_eq_bytes(a.public_key, b.public_key);
}

/// The secret key encoding is injective.
pub proof fn lemma_encode_secret_key_injective(a: AMFSecretKey, b: AMFSecretKey)
    requires
        spec_encode_secret_key(a) == spec_encode_secret_key(b),
    ensures
        a == b,
{
    assert(role_byte(a.role) == spec_encode_secret_key(a)[0]);
    assert(spec_encode_secret_key(a).subrange(1, 33) =~= a.secret_key.bytes@);
    assert(spec_encode_secret_key(b).subrange(1, 33) =~= b.secret_key.bytes@);
    lemma_scalar_eq_bytes(a.secret_key, b.secret_key);
}

/// The signature encoding is injective: together with the decoder's
/// contract, decoding an encoded signature gives the signature back.
pub proof fn lemma_encode_signature_injective(a: AMFSignature, b: AMFSignature)
    requires
        spec_encode_signature(a) == spec_encode_signature(b),
    ensures
        a == b,
{
    let x = spec_encode_signature(a);
    let y = spec_encode_signature(b);
    lemma_signature_field_bytes(a);
    lemma_signature_field_bytes(b);
    lemma_point_eq_bytes(a.pi.prover_commitment.0.0, b.pi.prover_commitment.0.0);
    lemma_point_eq_bytes(a.pi.prover_commitment.0.1, b.pi.prover_commitment.0.1);
    lemma_point_eq_bytes(a.pi.prover_commitment.1.0.v_t, b.pi.prover_commitment.1.0.v_t);
    lemma_point_eq_bytes(a.pi.prover_commitment.1.0.w_t, b.pi.prover_commitment.1.0.w_t);
    lemma_point_eq_bytes(a.pi.prover_commitment.1.1, b.pi.prover_commitment.1.1);
    lemma_scalar_eq_bytes(a.pi.prover_response.0.c_0, b.pi.prover_response.0.c_0);
    lemma_scalar_eq_bytes(a.pi.prover_response.0.z_0, b.pi.prover_response.0.z_0);
    lemma_scalar_eq_bytes(a.pi.prover_response.0.z_1, b.pi.prover_response.0.z_1);
    lemma_scalar_eq_bytes(a.pi.prover_response.1.c_0, b.pi.prover_response.1.c_0);
    lemma_scalar_eq_bytes(a.pi.prover_response.1.z_0, b.pi.prover_response.1.z_0);
    lemma_scalar_eq_bytes(a.pi.prover_response.1.z_1, b.pi.prover_response.1.z_1);
    lemma_point_eq_bytes(a.J, b.J);
    lemma_point_eq_bytes(a.R, b.R);
    lemma_point_eq_bytes(a.E_J, b.E_J);
    lemma_point_eq_bytes(a.E_R, b.E_R);
}

/// Each field of a signature stands at its fixed offset in the encoding.
proof fn lemma_signature_field_bytes(s: AMFSignature)
    ensures
        spec_encode_signature(s).subrange(0, 32) == s.pi.prover_commitment.0.0.bytes@,
        spec_encode_signature(s).subrange(32, 64) == s.pi.prover_commitment.0.1.bytes@,
        spec_encode_signature(s).subrange(64, 96) == s.pi.prover_commitment.1.0.v_t.bytes@,
        spec_encode_signature(s).subrange(96, 128) == s.pi.prover_commitment.1.0.w_t.bytes@,
        spec_encode_signature(s).subrange(128, 160) == s.pi.prover_commitment.1.1.bytes@,
        spec_encode_signature(s).subrange(160, 192) == s.pi.prover_response.0.c_0.bytes@,
        spec_encode_signature(s).subrange(192, 224) == s.pi.prover_response.0.z_0.bytes@,
        spec_encode_signature(s).subrange(224, 256) == s.pi.prover_response.0.z_1.bytes@,
        spec_encode_signature(s).subrange(256, 288) == s.pi.prover_response.1.c_0.bytes@,
        spec_encode_signature(s).subrange(288, 320) == s.pi.prover_response.1.z_0.bytes@,
        spec_encode_signature(s).subrange(320, 352) == s.pi.prover_response.1.z_1.bytes@,
        spec_encode_signature(s).subrange(352, 384) == s.J.bytes@,
        spec_encode_signature(s).subrange(384, 416) == s.R.bytes@,
        spec_encode_signature(s).subrange(416, 448) == s.E_J.bytes@,
        spec_encode_signature(s).subrange(448, 480) == s.E_R.bytes@,
{
    let b = spec_encode_signature(s);
    assert(b.subrange(0, 32) =~= s.pi.prover_commitment.0.0.bytes@);
    assert(b.subrange(32, 64) =~= s.pi.prover_commitment.0.1.bytes@);
    assert(b.subrange(64, 96) =~= s.pi.prover_commitment.1.0.v_t.bytes@);
    assert(b.subrange(96, 128) =~= s.pi.prover_commitment.1.0.w_t.bytes@);
    assert(b.subrange(128, 160) =~= s.pi.prover_commitment.1.1.bytes@);
    assert(b.subrange(160, 192) =~= s.pi.prover_response.0.c_0.bytes@);
    assert(b.subrange(192, 224) =~= s.pi.prover_response.0.z_0.bytes@);
    assert(b.subrange(224, 256) =~= s.pi.prover_response.0.z_1.bytes@);
    assert(b.subrange(256, 288) =~= s.pi.prover_response.1.c_0.bytes@);
    assert(b.subrange(288, 320) =~= s.pi.prover_response.1.z_0.bytes@);
    assert(b.subrange(320, 352) =~= s.pi.prover_response.1.z_1.bytes@);
    assert(b.subrange(352, 384) =~= s.J.bytes@);
    assert(b.subrange(384, 416) =~= s.R.bytes@);
    assert(b.subrange(416, 448) =~= s.E_J.bytes@);
    assert(b.subrange(448, 480) =~= s.E_R.bytes@);
}

} // verus!
