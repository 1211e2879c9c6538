//! The base-field side of the codec: the `substrate_bn::Fq` type, its
//! canonical 32-byte big-endian encoding, and the conversions between the two.

use vstd::prelude::*;

verus! {

/// The 32-byte all-zero sequence: the canonical big-endian encoding of the
/// field's zero element.
pub open spec fn zero32() -> Seq<u8> {
    Seq::new(32, |i: int| 0u8)
}

/// The 32-byte big-endian encoding of a single-byte value: zeros with the
/// value in the last position.
pub open spec fn small_be32(v: u8) -> Seq<u8> {
    Seq::new(32, |i: int| if i == 31 { v } else { 0u8 })
}

/// The integer a byte sequence denotes when read in big-endian order.
pub open spec fn be_val(b: Seq<u8>) -> nat
    decreases b.len(),
{
    if b.len() == 0 {
        0
    } else {
        be_val(b.drop_last()) * 256 + b.last() as nat
    }
}

/// The BN254 base-field modulus.
pub open spec fn fq_modulus() -> nat {
    21888242871839275222246405745257275088696311157297823662689037894645226208583nat
}

/// An all-zero byte sequence denotes zero.
pub proof fn lemma_be_val_zeros(b: Seq<u8>)
    requires
        forall|i: int| 0 <= i < b.len() ==> b[i] == 0,
    ensures
        be_val(b) == 0,
    decreases b.len(),
{
    if b.len() > 0 {
        assert(forall|i: int| 0 <= i < b.drop_last().len() ==> b.drop_last()[i] == 0);
        lemma_be_val_zeros(b.drop_last());
    }
}

/// A single-byte value's 32-byte encoding denotes that value.
pub proof fn lemma_be_val_small(v: u8)
    ensures
        be_val(small_be32(v)) == v,
{
    let s = small_be32(v);
    assert(forall|i: int| 0 <= i < s.drop_last().len() ==> s.drop_last()[i] == 0);
    lemma_be_val_zeros(s.drop_last());
}

/// An element of the BN254 base field, kept by the external group library in
/// reduced form. Opaque here; contracts speak of its canonical encoding
/// through `fq_be`.
#[verifier::external_type_specification]
#[verifier::external_body]
pub struct ExFq(substrate_bn::Fq);

/// The error type of the external field's byte conversions.
#[verifier::external_type_specification]
#[verifier::external_body]
pub struct ExFieldError(substrate_bn::FieldError);

/// The canonical 32-byte big-endian encoding of a field element: what
/// `substrate_bn::Fq::to_big_endian` writes for it. The library keeps every
/// `Fq` reduced below the field modulus, so the encoding determines the
/// element and the element determines the encoding.
pub uninterp spec fn fq_be(f: substrate_bn::Fq) -> Seq<u8>;

/// Whether a 32-byte sequence, read as a big-endian integer, lies below the
/// BN254 base-field modulus: the condition under which
/// `substrate_bn::Fq::from_slice` accepts 32 bytes.
pub open spec fn fq_in_range(b: Seq<u8>) -> bool {
    be_val(b) < fq_modulus()
}

/// Relies on `substrate_bn::Fq::from_slice`: on a 32-byte slice it succeeds
/// exactly when the big-endian value is below the field modulus, and the
/// element it returns encodes back to those same bytes. On a value at or
/// above the modulus it fails with `FieldError::NotMember`.
#[verifier::external_body]
pub fn read_fq(b: &[u8]) -> (r: Result<substrate_bn::Fq, substrate_bn::FieldError>)
    requires
        b@.len() >= 32,
    ensures
        r is Ok <==> fq_in_range(b@.take(32)),
        r is Ok ==> fq_be(r->Ok_0) == b@.take(32),
{
    substrate_bn::Fq::from_slice(&b[..32])
}

/// Relies on `substrate_bn::Fq::to_big_endian`: it fails only when the output
/// slice is not 32 bytes long, and on a 32-byte buffer it writes the
/// element's reduced value in big-endian order, which is below the modulus.
#[verifier::external_body]
pub(crate) fn fq_to_be(f: &substrate_bn::Fq) -> (r: Result<
    [u8; 32],
    substrate_bn::FieldError,
>)
    ensures
        r is Ok,
        r is Ok ==> r->Ok_0@ == fq_be(*f) && fq_in_range(r->Ok_0@),
{
    let mut out = [0u8; 32];
    match f.to_big_endian(&mut out) {
        Ok(()) => Ok(out),
        Err(e) => Err(e),
    }
}

/// Relies on `substrate_bn::Fq::zero`: the zero element's reduced value is 0,
/// which encodes as 32 zero bytes.
#[verifier::external_body]
pub(crate) fn fq_zero() -> (r: substrate_bn::Fq)
    ensures
        fq_be(r) == zero32(),
{
    substrate_bn::Fq::zero()
}

/// Relies on `substrate_bn::Fq`'s `PartialEq`: it compares the reduced
/// internal representations, so two elements are equal exactly when their
/// canonical encodings coincide.
#[verifier::external_body]
pub(crate) fn fq_eq(a: &substrate_bn::Fq, b: &substrate_bn::Fq) -> (r: bool)
    ensures
        r == (fq_be(*a) == fq_be(*b)),
{
    *a == *b
}

} // verus!
