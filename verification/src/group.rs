//! Group facade for the Ristretto255 prime-order group.
//!
//! Scalars and points are carried as their canonical 32-byte encodings.
//! A scalar's mathematical value is the little-endian integer its bytes
//! spell, always reduced below the group order.  A point is modelled by its
//! discrete logarithm with respect to the base point, an element of the
//! scalar field; the group being cyclic of prime order, the logarithm
//! determines the point completely, and the canonical encoding is unique
//! per point.  All arithmetic is done by `curve25519_dalek`, behind the
//! trusted functions of this module; everything above this module is
//! verified against their contracts.

use vstd::prelude::*;
use vstd::arithmetic::div_mod::{
    lemma_small_mod, lemma_add_mod_noop, lemma_mul_mod_noop_left, lemma_mod_add_multiples_vanish,
};
use vstd::arithmetic::mul::lemma_mul_is_distributive_add_other_way;
use sha2::Digest;

verus! {

/// The order of the Ristretto255 group (a prime, about 2^252).
pub open spec fn group_order() -> nat {
    0x1000000000000000000000000000000014def9dea2f79cd65812631a5cf5d3ednat
}

/// The little-endian integer value of a byte string.
pub open spec fn le_bytes(b: Seq<u8>) -> nat
    decreases b.len(),
{
    if b.len() == 0 {
        0
    } else {
        b[0] as nat + 256 * le_bytes(b.skip(1))
    }
}

/// Reduction into the scalar field.
pub open spec fn fq(x: int) -> nat {
    (x % (group_order() as int)) as nat
}

/// Subtraction in the scalar field.  `fq` reduces with Euclidean remainder,
/// so a negative difference lands on the representative below the order.
pub open spec fn sub_fq(a: int, b: int) -> nat {
    fq(a - b)
}

/// A scalar of the field of order `group_order()`, as canonical bytes.
#[derive(Clone, Copy, PartialEq, Eq, Debug)]
pub struct GroupScalar {
    pub bytes: [u8; 32],
}

/// A group element, as its canonical compressed encoding.
#[derive(Clone, Copy, PartialEq, Eq, Debug)]
pub struct GroupPoint {
    pub bytes: [u8; 32],
}

impl View for GroupScalar {
    type V = nat;

    open spec fn view(&self) -> nat {
        le_bytes(self.bytes@)
    }
}

impl GroupScalar {
    /// A canonical scalar encoding spells a value below the group order.
    pub open spec fn wf(self) -> bool {
        self@ < group_order()
    }
}

impl GroupPoint {
    /// Whether the bytes are the canonical encoding of a group element.
    pub open spec fn wf(self) -> bool {
        point_valid(self.bytes@)
    }

    /// The discrete logarithm of the encoded point, base the group generator.
    pub open spec fn log(self) -> nat {
        point_log(self.bytes@)
    }
}

/// Whether 32 bytes are the canonical Ristretto255 encoding of a group
/// element, that is, whether `CompressedRistretto::decompress` accepts them.
pub uninterp spec fn point_valid(b: Seq<u8>) -> bool;

/// The discrete logarithm, base the Ristretto255 generator, of the group
/// element a canonical encoding denotes.
pub uninterp spec fn point_log(b: Seq<u8>) -> nat;

/// The scalar that SHA-512 followed by reduction modulo the group order
/// derives from a byte string.
pub uninterp spec fn hash_challenge(b: Seq<u8>) -> nat;

/// Relies on `rand::thread_rng` and `Scalar::random`, which reduces a
/// uniform 512-bit integer modulo the group order; `Scalar::to_bytes` is the
/// canonical little-endian encoding, so the value is below the order.
/// Nothing else can be promised of a random draw.
#[verifier::external_body]
pub(crate) fn random_scalar() -> (s: GroupScalar)
    ensures
        s.wf(),
{
    let mut rng = rand::thread_rng();
    GroupScalar { bytes: curve25519_dalek::scalar::Scalar::random(&mut rng).to_bytes() }
}

/// Relies on `Scalar::from_canonical_bytes`, which accepts exactly the
/// canonical encodings, i.e. little-endian values below the group order.
#[verifier::external_body]
pub(crate) fn scalar_from_bytes(bytes: &[u8; 32]) -> (r: Option<GroupScalar>)
    ensures
        r is Some <==> le_bytes(bytes@) < group_order(),
        r matches Some(s) ==> s.bytes == *bytes,
{
    let c: Option<curve25519_dalek::scalar::Scalar> =
        curve25519_dalek::scalar::Scalar::from_canonical_bytes(*bytes).into();
    c.map(|_| GroupScalar { bytes: *bytes })
}

/// Relies on `Scalar` addition, which is addition modulo the group order on
/// reduced representatives, and on `Scalar::to_bytes` being canonical.
#[verifier::external_body]
pub(crate) fn scalar_add(a: &GroupScalar, b: &GroupScalar) -> (r: GroupScalar)
    requires
        a.wf(),
        b.wf(),
    ensures
        r.wf(),
        r@ == fq(a@ as int + b@),
{
    let x = curve25519_dalek::scalar::Scalar::from_canonical_bytes(a.bytes).unwrap();
    let y = curve25519_dalek::scalar::Scalar::from_canonical_bytes(b.bytes).unwrap();
    GroupScalar { bytes: (x + y).to_bytes() }
}

/// Relies on `Scalar` subtraction, which is subtraction modulo the group
/// order on reduced representatives.
#[verifier::external_body]
pub(crate) fn scalar_sub(a: &GroupScalar, b: &GroupScalar) -> (r: GroupScalar)
    requires
        a.wf(),
        b.wf(),
    ensures
        r.wf(),
        r@ == sub_fq(a@ as int, b@ as int),
{
    let x = curve25519_dalek::scalar::Scalar::from_canonical_bytes(a.bytes).unwrap();
    let y = curve25519_dalek::scalar::Scalar::from_canonical_bytes(b.bytes).unwrap();
    GroupScalar { bytes: (x - y).to_bytes() }
}

/// Relies on `Scalar` multiplication, which is multiplication modulo the
/// group order on reduced representatives.
#[verifier::external_body]
pub(crate) fn scalar_mul(a: &GroupScalar, b: &GroupScalar) -> (r: GroupScalar)
    requires
        a.wf(),
        b.wf(),
    ensures
        r.wf(),
        r@ == fq(a@ as int * b@),
{
    let x = curve25519_dalek::scalar::Scalar::from_canonical_bytes(a.bytes).unwrap();
    let y = curve25519_dalek::scalar::Scalar::from_canonical_bytes(b.bytes).unwrap();
    GroupScalar { bytes: (x * y).to_bytes() }
}

/// The canonical compressed encoding of the Ristretto255 generator, the
/// value of `constants::RISTRETTO_BASEPOINT_COMPRESSED`.
pub open spec fn basepoint_bytes() -> Seq<u8> {
    seq![
        0xe2u8, 0xf2, 0xae, 0x0a, 0x6a, 0xbc, 0x4e, 0x71, 0xa8, 0x84, 0xa9, 0x61, 0xc5, 0x00,
        0x51, 0x5f, 0x58, 0xe3, 0x0b, 0x6a, 0xa5, 0x82, 0xdd, 0x8d, 0xb6, 0xa6, 0x59, 0x45,
        0xe0, 0x8d, 0x2d, 0x76,
    ]
}

/// Whether a point is the group generator, by its canonical encoding.
pub open spec fn is_basepoint(g: GroupPoint) -> bool {
    &&& g.wf()
    &&& g.log() == 1
    &&& g.bytes@ == basepoint_bytes()
}

/// Relies on `constants::RISTRETTO_BASEPOINT_POINT`, the generator the
/// logarithm is taken to, whose canonical encoding is the constant
/// `RISTRETTO_BASEPOINT_COMPRESSED`.  The generator's logarithm base
/// itself is 1.
#[verifier::external_body]
pub(crate) fn basepoint() -> (g: GroupPoint)
    ensures
        g.wf(),
        point_log(g.bytes@) == 1,
        g.bytes@ == basepoint_bytes(),
{
    GroupPoint { bytes: curve25519_dalek::constants::RISTRETTO_BASEPOINT_POINT.compress().to_bytes() }
}

/// Two points with the same encoding are the same value.
pub proof fn lemma_point_eq_bytes(p: GroupPoint, q: GroupPoint)
    requires
        p.bytes@ == q.bytes@,
    ensures
        p == q,
{
    broadcast use vstd::array::axiom_array_ext_equal;

    assert(p.bytes =~= q.bytes);
}

/// Two scalars with the same encoding are the same value.
pub proof fn lemma_scalar_eq_bytes(p: GroupScalar, q: GroupScalar)
    requires
        p.bytes@ == q.bytes@,
    ensures
        p == q,
{
    broadcast use vstd::array::axiom_array_ext_equal;

    assert(p.bytes =~= q.bytes);
}

/// Relies on `CompressedRistretto::decompress`, which accepts exactly the
/// canonical encodings of group elements.
#[verifier::external_body]
pub(crate) fn point_from_bytes(bytes: &[u8; 32]) -> (r: Option<GroupPoint>)
    ensures
        r is Some <==> point_valid(bytes@),
        r matches Some(p) ==> p.bytes == *bytes,
{
    curve25519_dalek::ristretto::CompressedRistretto(*bytes)
        .decompress()
        .map(|_| GroupPoint { bytes: *bytes })
}

/// Relies on scalar multiplication of a `RistrettoPoint`: in a cyclic group
/// the logarithm of `k * p` is `k` times the logarithm of `p`, modulo the
/// group order.  `compress` keeps the encoding canonical.
#[verifier::external_body]
pub(crate) fn point_mul(k: &GroupScalar, p: &GroupPoint) -> (r: GroupPoint)
    requires
        k.wf(),
        p.wf(),
    ensures
        r.wf(),
        r.log() == fq(k@ as int * p.log()),
{
    let s = curve25519_dalek::scalar::Scalar::from_canonical_bytes(k.bytes).unwrap();
    let q = curve25519_dalek::ristretto::CompressedRistretto(p.bytes).decompress().unwrap();
    GroupPoint { bytes: (s * q).compress().to_bytes() }
}

/// Relies on `RistrettoPoint` addition: the logarithm of a product (written
/// additively, a sum) is the sum of the logarithms, modulo the group order.
#[verifier::external_body]
pub(crate) fn point_add(p: &GroupPoint, q: &GroupPoint) -> (r: GroupPoint)
    requires
        p.wf(),
        q.wf(),
    ensures
        r.wf(),
        r.log() == fq(p.log() as int + q.log()),
{
    let a = curve25519_dalek::ristretto::CompressedRistretto(p.bytes).decompress().unwrap();
    let b = curve25519_dalek::ristretto::CompressedRistretto(q.bytes).decompress().unwrap();
    GroupPoint { bytes: (a + b).compress().to_bytes() }
}

/// Relies on `RistrettoPoint` subtraction: the logarithm of `p - q` is the
/// difference of the logarithms, modulo the group order.
#[verifier::external_body]
pub(crate) fn point_sub(p: &GroupPoint, q: &GroupPoint) -> (r: GroupPoint)
    requires
        p.wf(),
        q.wf(),
    ensures
        r.wf(),
        r.log() == fq(p.log() as int - q.log()),
{
    let a = curve25519_dalek::ristretto::CompressedRistretto(p.bytes).decompress().unwrap();
    let b = curve25519_dalek::ristretto::CompressedRistretto(q.bytes).decompress().unwrap();
    GroupPoint { bytes: (a - b).compress().to_bytes() }
}

/// Relies on `RistrettoPoint` equality, which compares group elements, and
/// on the canonical encoding being unique per group element: two canonical
/// encodings denote the same element exactly when they are the same bytes,
/// and, the group being cyclic of prime order, exactly when their discrete
/// logarithms agree.
#[verifier::external_body]
pub(crate) fn point_eq(p: &GroupPoint, q: &GroupPoint) -> (r: bool)
    requires
        p.wf(),
        q.wf(),
    ensures
        r == (p.log() == q.log()),
        r == (p.bytes@ == q.bytes@),
{
    let a = curve25519_dalek::ristretto::CompressedRistretto(p.bytes).decompress().unwrap();
    let b = curve25519_dalek::ristretto::CompressedRistretto(q.bytes).decompress().unwrap();
    a == b
}

/// Relies on `Sha512` and `Scalar::from_hash`, which reduces the 512-bit
/// digest modulo the group order; the result depends on the input bytes
/// alone, and is named by `hash_challenge`.
#[verifier::external_body]
pub(crate) fn hash_to_scalar(data: &[u8]) -> (c: GroupScalar)
    ensures
        c.wf(),
        c@ == hash_challenge(data@),
{
    let mut hasher = sha2::Sha512::new();
    hasher.update(data);
    GroupScalar { bytes: curve25519_dalek::scalar::Scalar::from_hash(hasher).to_bytes() }
}

/// Append a byte slice to a vector.
pub(crate) fn extend_bytes(out: &mut Vec<u8>, b: &[u8])
    ensures
        final(out)@ == old(out)@ + b@,
{
    let ghost base = out@;
    let mut i: usize = 0;
    while i < b.len()
        invariant
            i <= b@.len(),
            out@ == base + b@.subrange(0, i as int),
        decreases b@.len() - i,
    {
        out.push(b[i]);
        proof {
            assert(base + b@.subrange(0, i as int) + seq![b@[i as int]] =~= base + b@.subrange(
                0,
                i as int + 1,
            ));
        }
        i += 1;
    }
    proof {
        assert(base + b@.subrange(0, b@.len() as int) =~= base + b@);
    }
}

/// Reduction leaves values below the order unchanged.
pub proof fn lemma_fq_small(x: nat)
    requires
        x < group_order(),
    ensures
        fq(x as int) == x,
{
    lemma_small_mod(x, group_order());
}

/// Reducing one addend first does not change a reduced sum.
pub proof fn lemma_fq_add_noop(a: int, b: int)
    ensures
        fq(fq(a) + b) == fq(a + b),
        fq(a + fq(b)) == fq(a + b),
{
    let m = group_order() as int;
    lemma_add_mod_noop(a, b, m);
    lemma_add_mod_noop(a % m, b, m);
    lemma_add_mod_noop(a, b % m, m);
    vstd::arithmetic::div_mod::lemma_mod_twice(a, m);
    vstd::arithmetic::div_mod::lemma_mod_twice(b, m);
}

/// Reducing one factor first does not change a reduced product.
pub proof fn lemma_fq_mul_noop(a: int, b: int)
    ensures
        fq(fq(a) * b) == fq(a * b),
        fq(a * fq(b)) == fq(a * b),
{
    let m = group_order() as int;
    lemma_mul_mod_noop_left(a, b, m);
    vstd::arithmetic::div_mod::lemma_mul_mod_noop_right(a, b, m);
}

/// A full multiple of the order vanishes under reduction.
pub proof fn lemma_fq_add_order(x: int)
    ensures
        fq(x + group_order()) == fq(x),
{
    lemma_mod_add_multiples_vanish(x, group_order() as int);
}

/// Splitting a challenge off and adding it back returns to the whole:
/// `sub_fq(a, x) + x` reduces to `a` reduced.
pub proof fn lemma_sub_fq_add(a: int, x: int)
    ensures
        fq(sub_fq(a, x) + x) == fq(a),
{
    lemma_fq_add_noop(a - x, x);
}

/// Splitting the same challenge off twice returns the first share:
/// for `b` and `c` below the order, `sub_fq(c, sub_fq(c, b)) == b`.
pub proof fn lemma_sub_fq_cancel(c: nat, b: nat)
    requires
        b < group_order(),
        c < group_order(),
    ensures
        sub_fq(c as int, sub_fq(c as int, b as int) as int) == b,
{
    let q = group_order();
    let d = sub_fq(c as int, b as int);
    if c >= b {
        lemma_fq_small((c - b) as nat);
        assert(d == c - b);
        lemma_fq_small(b);
    } else {
        lemma_fq_add_order(c - b);
        lemma_fq_small((c + q - b) as nat);
        assert(d == c + q - b);
        lemma_fq_add_order(b - q);
        lemma_fq_small(b);
    }
}

/// Multiplication by a fixed factor distributes over a reduced sum.
pub proof fn lemma_fq_mul_distrib(a: int, b: int, u: int)
    ensures
        fq(fq(a + b) * u) == fq(fq(a * u) as int + fq(b * u)),
{
    lemma_fq_mul_noop(a + b, u);
    lemma_mul_is_distributive_add_other_way(u, a, b);
    assert((a + b) * u == a * u + b * u);
    lemma_fq_add_noop(a * u, b * u);
    lemma_fq_add_noop(a * u, fq(b * u) as int);
}

} // verus!
