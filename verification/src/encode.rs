use vstd::prelude::*;
use vstd::array::ArrayAdditionalExecFns;
use crate::errors::GameError;
use crate::game::DIGIT_RANGE;

verus! {

/// The fixed byte width of one field element in the proving backend's
/// wire format.
pub const FIELD_WIDTH: usize = 32;

/// The 32-byte little-endian encoding of the small value `v`: `v` in the
/// first byte, zero everywhere else.
pub open spec fn scalar_repr(v: u8) -> Seq<u8> {
    Seq::new(FIELD_WIDTH as nat, |i: int| if i == 0 { v } else { 0u8 })
}

/// Whether a 32-byte string is a canonical scalar encoding: one the
/// backend's parser accepts. Every byte form the elliptic-curve crate's
/// `to_bytes` returns is canonical.
pub uninterp spec fn canonical_scalar(b: Seq<u8>) -> bool;

/// The canonical encoding of the field negation of the small value `v`
/// in the scalar field of ristretto255. Known here only by name: it is a
/// function of `v` alone, computed by the elliptic-curve crate.
pub uninterp spec fn neg_scalar_repr(v: u8) -> Seq<u8>;

/// The canonical encoding of the field difference of the two encoded
/// scalars `a - b`, a function of the two encodings alone.
pub uninterp spec fn sub_repr(a: Seq<u8>, b: Seq<u8>) -> Seq<u8>;

/// The canonical encoding of the field product of the two encoded
/// scalars `a * b`, a function of the two encodings alone.
pub uninterp spec fn mul_repr(a: Seq<u8>, b: Seq<u8>) -> Seq<u8>;

/// The canonical encoding of the multiplicative field inverse of the
/// encoded scalar `a`, a function of the encoding alone.
pub uninterp spec fn inv_repr(a: Seq<u8>) -> Seq<u8>;

/// Relies on curve25519_dalek's `Scalar::from` and `Scalar::to_bytes`:
/// a value below the group order is stored without reduction, and
/// `to_bytes` returns its canonical little-endian 32-byte form.
#[verifier::external_body]
pub(crate) fn scalar_bytes_from_u8(v: u8) -> (r: [u8; 32])
    ensures
        r@ == scalar_repr(v),
        canonical_scalar(r@),
{
    curve25519_dalek::scalar::Scalar::from(v).to_bytes()
}

/// Relies on curve25519_dalek's `Neg` on `Scalar`: the field negation
/// of `v`, in canonical form.
#[verifier::external_body]
pub(crate) fn scalar_neg_bytes(v: u8) -> (r: [u8; 32])
    ensures
        r@ == neg_scalar_repr(v),
        canonical_scalar(r@),
{
    (-curve25519_dalek::scalar::Scalar::from(v)).to_bytes()
}

/// Relies on curve25519_dalek's `Sub` on `Scalar` (with
/// `from_bytes_mod_order` / `to_bytes` converting at the boundary): the
/// canonical encoding of the field difference.
#[verifier::external_body]
pub(crate) fn scalar_sub_bytes(a: &[u8; 32], b: &[u8; 32]) -> (r: [u8; 32])
    ensures
        r@ == sub_repr(a@, b@),
        canonical_scalar(r@),
{
    (curve25519_dalek::scalar::Scalar::from_bytes_mod_order(*a)
        - curve25519_dalek::scalar::Scalar::from_bytes_mod_order(*b)).to_bytes()
}

/// Relies on curve25519_dalek's `Mul` on `Scalar` (with
/// `from_bytes_mod_order` / `to_bytes` converting at the boundary): the
/// canonical encoding of the field product.
#[verifier::external_body]
pub(crate) fn scalar_mul_bytes(a: &[u8; 32], b: &[u8; 32]) -> (r: [u8; 32])
    ensures
        r@ == mul_repr(a@, b@),
        canonical_scalar(r@),
{
    (curve25519_dalek::scalar::Scalar::from_bytes_mod_order(*a)
        * curve25519_dalek::scalar::Scalar::from_bytes_mod_order(*b)).to_bytes()
}

/// Relies on curve25519_dalek's `Scalar::invert`: the multiplicative
/// inverse of a nonzero scalar (zero maps to zero), a total function of
/// the encoding, returned in canonical form.
#[verifier::external_body]
pub(crate) fn scalar_invert_bytes(a: &[u8; 32]) -> (r: [u8; 32])
    ensures
        r@ == inv_repr(a@),
        canonical_scalar(r@),
{
    curve25519_dalek::scalar::Scalar::from_bytes_mod_order(*a).invert().to_bytes()
}

/// Encodes a small unsigned value as one field element in the backend's
/// fixed-width form. Only values below `DIGIT_RANGE` ever arise in this
/// circuit; anything larger is rejected as `EncodingOverflow`.
pub fn encode(value: u64) -> (r: Result<[u8; 32], GameError>)
    ensures
        r is Ok <==> value < DIGIT_RANGE as u64,
        r matches Ok(b) ==> b@ == scalar_repr(value as u8) && canonical_scalar(b@),
        r matches Err(e) ==> e == GameError::EncodingOverflow,
{
    if value < DIGIT_RANGE as u64 {
        Ok(scalar_bytes_from_u8(value as u8))
    } else {
        Err(GameError::EncodingOverflow)
    }
}

/// Encodes a boolean as the field element 0 or 1.
pub fn encode_bool(b: bool) -> (r: [u8; 32])
    ensures
        r@ == scalar_repr(if b { 1u8 } else { 0u8 }),
        canonical_scalar(r@),
{
    scalar_bytes_from_u8(if b { 1 } else { 0 })
}

/// Whether an encoded field element is the canonical zero.
pub fn bytes_is_zero(b: &[u8; 32]) -> (r: bool)
    ensures
        r == (b@ == scalar_repr(0)),
{
    for idx in 0..32
        invariant
            forall|m: int| 0 <= m < idx ==> b@[m] == 0u8,
    {
        if b[idx] != 0 {
            assert(b@[idx as int] != scalar_repr(0)[idx as int]);
            return false;
        }
    }
    proof {
        assert(b@ =~= scalar_repr(0));
    }
    true
}

/// Pads a short byte string with zero bytes up to the backend's fixed
/// 32-byte field-element width.
pub fn vec_to_array_32(vec: Vec<u8>) -> (r: [u8; 32])
    requires
        vec@.len() <= 32,
    ensures
        forall|k: int| 0 <= k < vec@.len() ==> r@[k] == vec@[k],
        forall|k: int| vec@.len() <= k < 32 ==> r@[k] == 0u8,
{
    let mut array = [0u8; 32];
    for i in 0..vec.len()
        invariant
            vec@.len() <= 32,
            forall|k: int| 0 <= k < i ==> array@[k] == vec@[k],
            forall|k: int| i <= k < 32 ==> array@[k] == 0u8,
    {
        array.set(i, vec[i]);
    }
    array
}

} // verus!
