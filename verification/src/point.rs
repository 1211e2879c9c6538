//! The group side of the codec: the `substrate_bn` point types, a
//! mathematical model of a G1 value, and validated construction of a point
//! from two field coordinates.

use crate::field::be_val;
use crate::field::fq_be;
use crate::field::fq_eq;
use crate::field::fq_in_range;
use crate::field::fq_modulus;
use crate::field::fq_zero;
use crate::field::small_be32;
use crate::field::zero32;
use vstd::prelude::*;

verus! {

/// A G1 group element in the external library's Jacobian representation.
/// Opaque here; contracts speak of it through `g1_model`.
#[verifier::external_type_specification]
#[verifier::external_body]
pub struct ExG1(substrate_bn::G1);

/// A non-identity G1 point held as an affine coordinate pair. Construction
/// through `new` validates curve membership, but the type itself does not
/// enforce it: `from_jacobian` and the public coordinate setters accept any
/// pair, so contracts that need membership say so explicitly.
#[verifier::external_type_specification]
#[verifier::external_body]
pub struct ExAffineG1(substrate_bn::AffineG1);

/// The error type of the external library's point construction.
#[verifier::external_type_specification]
#[verifier::external_body]
pub struct ExGroupError(substrate_bn::GroupError);

/// Whether a G1 value is the group's identity element: what
/// `substrate_bn::Group::is_zero` returns for it.
pub uninterp spec fn g1_is_zero(p: substrate_bn::G1) -> bool;

/// The canonical big-endian encoding of the affine x coordinate of a
/// non-identity G1 value: what serializing the x coordinate of
/// `substrate_bn::AffineG1::from_jacobian`'s result yields. Unspecified for
/// the identity.
pub uninterp spec fn g1_x_be(p: substrate_bn::G1) -> Seq<u8>;

/// The canonical big-endian encoding of the affine y coordinate of a
/// non-identity G1 value. Unspecified for the identity.
pub uninterp spec fn g1_y_be(p: substrate_bn::G1) -> Seq<u8>;

/// Whether a G1 value is the identity or its affine coordinates satisfy the
/// curve equation. Every value the external library hands out is valid; the
/// codec records it so that re-encoding a decoded point is known to succeed.
pub uninterp spec fn g1_valid(p: substrate_bn::G1) -> bool;

/// The canonical big-endian encoding of the x coordinate of an affine point:
/// what serializing `substrate_bn::AffineG1::x` yields.
pub uninterp spec fn af_x_be(a: substrate_bn::AffineG1) -> Seq<u8>;

/// The canonical big-endian encoding of the y coordinate of an affine point.
pub uninterp spec fn af_y_be(a: substrate_bn::AffineG1) -> Seq<u8>;

/// Whether the field elements encoded by two in-range 32-byte big-endian
/// sequences satisfy the BN254 curve equation y^2 = x^3 + 3 over the base
/// field: the condition under which `substrate_bn::AffineG1::new` accepts
/// the pair.
pub open spec fn on_curve(x: Seq<u8>, y: Seq<u8>) -> bool {
    (be_val(y) * be_val(y)) % fq_modulus() == (be_val(x) * be_val(x) * be_val(x) + 3)
        % fq_modulus()
}

/// The model of the group sum of two points, each given as its model triple
/// (identity flag, affine x encoding, affine y encoding). When a flag is
/// set the corresponding coordinate sequences are ignored.
pub uninterp spec fn g1_sum(
    az: bool,
    ax: Seq<u8>,
    ay: Seq<u8>,
    bz: bool,
    bx: Seq<u8>,
    by: Seq<u8>,
) -> (bool, Seq<u8>, Seq<u8>);

/// The model of a G1 value: an identity flag and, for a non-identity point,
/// the canonical big-endian encodings of its affine coordinates. The
/// identity is modelled with all-zero coordinates, the pair the codec
/// assigns to it on the wire.
pub open spec fn g1_model(p: substrate_bn::G1) -> (bool, Seq<u8>, Seq<u8>) {
    if g1_is_zero(p) {
        (true, zero32(), zero32())
    } else {
        (false, g1_x_be(p), g1_y_be(p))
    }
}

/// Relies on `substrate_bn::Group::zero` for `G1`: it returns the identity
/// element (the Jacobian point with z = 0).
#[verifier::external_body]
pub(crate) fn g1_zero() -> (r: substrate_bn::G1)
    ensures
        g1_is_zero(r),
        g1_valid(r),
{
    <substrate_bn::G1 as substrate_bn::Group>::zero()
}

/// Relies on `substrate_bn::Group::one` for `G1`: it returns the group's
/// canonical generator, the point (1, 2) with z = 1, a valid non-identity
/// value whose coordinates encode as 1 and 2.
#[verifier::external_body]
pub(crate) fn g1_one() -> (r: substrate_bn::G1)
    ensures
        !g1_is_zero(r),
        g1_x_be(r) == small_be32(1),
        g1_y_be(r) == small_be32(2),
        g1_valid(r),
{
    <substrate_bn::G1 as substrate_bn::Group>::one()
}

/// Relies on `substrate_bn::Group::is_zero` for `G1`: it tests whether the
/// value is the identity (Jacobian z = 0).
#[verifier::external_body]
pub(crate) fn g1_is_identity(p: &substrate_bn::G1) -> (r: bool)
    ensures
        r == g1_is_zero(*p),
{
    <substrate_bn::G1 as substrate_bn::Group>::is_zero(p)
}

/// Relies on `substrate_bn::AffineG1::from_jacobian`: it returns `None`
/// exactly for the identity, and otherwise the normalized affine form of the
/// point, whose coordinates are reduced field elements; for a valid input
/// they satisfy the curve equation, and (0, 0) does not (the curve constant
/// is 3), so they are then not both zero.
#[verifier::external_body]
pub(crate) fn g1_to_affine(p: &substrate_bn::G1) -> (r: Option<substrate_bn::AffineG1>)
    ensures
        r is Some <==> !g1_is_zero(*p),
        r is Some ==> af_x_be(r->0) == g1_x_be(*p) && af_y_be(r->0) == g1_y_be(*p),
        r is Some ==> fq_in_range(g1_x_be(*p)) && fq_in_range(g1_y_be(*p)),
        r is Some && g1_valid(*p) ==> on_curve(g1_x_be(*p), g1_y_be(*p)),
        r is Some && g1_valid(*p) ==> !(g1_x_be(*p) == zero32() && g1_y_be(*p) == zero32()),
{
    substrate_bn::AffineG1::from_jacobian(*p)
}

/// Relies on `substrate_bn::AffineG1::x`: it returns the point's x
/// coordinate.
#[verifier::external_body]
pub(crate) fn affine_x(a: &substrate_bn::AffineG1) -> (r: substrate_bn::Fq)
    ensures
        fq_be(r) == af_x_be(*a),
{
    a.x()
}

/// Relies on `substrate_bn::AffineG1::y`: it returns the point's y
/// coordinate.
#[verifier::external_body]
pub(crate) fn affine_y(a: &substrate_bn::AffineG1) -> (r: substrate_bn::Fq)
    ensures
        fq_be(r) == af_y_be(*a),
{
    a.y()
}

/// Relies on `substrate_bn::AffineG1::new`: it succeeds exactly when the
/// coordinates satisfy the curve equation (the G1 parameters skip the
/// subgroup check), fails with `GroupError::NotOnCurve` otherwise, and keeps
/// the given coordinates. The curve constant is 3, so an accepted pair is
/// not (0, 0).
#[verifier::external_body]
pub(crate) fn affine_new(x: &substrate_bn::Fq, y: &substrate_bn::Fq) -> (r: Result<
    substrate_bn::AffineG1,
    substrate_bn::GroupError,
>)
    ensures
        r is Ok <==> on_curve(fq_be(*x), fq_be(*y)),
        r is Ok ==> af_x_be(r->Ok_0) == fq_be(*x) && af_y_be(r->Ok_0) == fq_be(*y),
        r is Ok ==> !(fq_be(*x) == zero32() && fq_be(*y) == zero32()),
{
    substrate_bn::AffineG1::new(*x, *y)
}

/// Relies on `From<substrate_bn::AffineG1> for substrate_bn::G1`: it embeds
/// the affine point as the Jacobian point with z = 1, a non-identity value
/// with the same affine coordinates. The embedding itself does not validate,
/// so the result is only known valid for an on-curve pair, which the
/// `requires` demands.
#[verifier::external_body]
pub(crate) fn g1_from_affine(a: substrate_bn::AffineG1) -> (r: substrate_bn::G1)
    requires
        on_curve(af_x_be(a), af_y_be(a)),
    ensures
        !g1_is_zero(r),
        g1_x_be(r) == af_x_be(a),
        g1_y_be(r) == af_y_be(a),
        g1_valid(r),
{
    substrate_bn::G1::from(a)
}

/// Relies on `Add for substrate_bn::G1`: on valid points it computes the
/// group sum, a valid point whose model is a function of the two operands'
/// models alone; when either operand is the identity it returns the other
/// operand, as its source states outright.
#[verifier::external_body]
pub(crate) fn g1_add(a: &substrate_bn::G1, b: &substrate_bn::G1) -> (r: substrate_bn::G1)
    requires
        g1_valid(*a),
        g1_valid(*b),
    ensures
        g1_is_zero(*a) ==> g1_model(r) == g1_model(*b),
        g1_is_zero(*b) ==> g1_model(r) == g1_model(*a),
        g1_model(r) == g1_sum(
            g1_model(*a).0,
            g1_model(*a).1,
            g1_model(*a).2,
            g1_model(*b).0,
            g1_model(*b).1,
            g1_model(*b).2,
        ),
        g1_valid(r),
{
    *a + *b
}

/// Builds a G1 point from two field coordinates: the pair (0, 0) is the
/// identity by the wire convention, and any other pair must lie on the
/// curve.
pub fn new_g1_point(px: substrate_bn::Fq, py: substrate_bn::Fq) -> (r: Result<
    substrate_bn::G1,
    substrate_bn::GroupError,
>)
    ensures
        r is Ok <==> ((fq_be(px) == zero32() && fq_be(py) == zero32()) || on_curve(
            fq_be(px),
            fq_be(py),
        )),
        r is Ok ==> g1_valid(r->Ok_0),
        r is Ok ==> g1_model(r->Ok_0) == (if fq_be(px) == zero32() && fq_be(py) == zero32() {
            (true, zero32(), zero32())
        } else {
            (false, fq_be(px), fq_be(py))
        }),
{
    let zero = fq_zero();
    if fq_eq(&px, &zero) && fq_eq(&py, &zero) {
        Ok(g1_zero())
    } else {
        match affine_new(&px, &py) {
            Ok(a) => Ok(g1_from_affine(a)),
            Err(e) => Err(e),
        }
    }
}

} // verus!
