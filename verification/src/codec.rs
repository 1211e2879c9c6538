//! Conversion between a G1 point and its 64-byte little-endian wire layout:
//! the x coordinate's 32 little-endian bytes, then the y coordinate's. The
//! identity element travels as 64 zero bytes.

use crate::field::fq_in_range;
use crate::field::fq_to_be;
use crate::field::fq_zero;
use crate::field::lemma_be_val_small;
use crate::field::lemma_be_val_zeros;
use crate::field::read_fq;
use crate::field::small_be32;
use crate::field::zero32;
use crate::point::affine_x;
use crate::point::affine_y;
use crate::point::g1_is_identity;
use crate::point::g1_one;
use crate::point::g1_model;
use crate::point::g1_to_affine;
use crate::point::g1_valid;
use crate::point::new_g1_point;
use crate::point::on_curve;
use vstd::prelude::*;

verus! {

/// Which of the two coordinates of a 64-byte buffer a decoding error is
/// about: the first half carries x, the second half y.
#[derive(Clone, Copy, Debug, PartialEq, Eq, Structural)]
pub enum Coordinate {
    X,
    Y,
}

/// Why encoding a point failed.
#[derive(Clone, Copy, Debug, PartialEq, Eq, Structural)]
pub enum EncodingError {
    /// The external field serializer reported an error for a coordinate.
    FieldSerialization,
}

/// Why decoding a 64-byte buffer failed.
#[derive(Clone, Copy, Debug, PartialEq, Eq, Structural)]
pub enum DecodingError {
    /// The named coordinate's bytes, read as a big-endian value after the
    /// byte reversal, are not below the field modulus.
    FieldOutOfRange(Coordinate),
    /// The coordinates are in range and not both zero, but do not satisfy
    /// the curve equation.
    NotOnCurve,
}

/// The big-endian encoding of the x coordinate held by a 64-byte buffer:
/// its first half, byte-reversed.
pub open spec fn le64_x(b: Seq<u8>) -> Seq<u8> {
    b.take(32).reverse()
}

/// The big-endian encoding of the y coordinate held by a 64-byte buffer:
/// its second half, byte-reversed.
pub open spec fn le64_y(b: Seq<u8>) -> Seq<u8> {
    b.subrange(32, 64).reverse()
}

/// The 64-byte wire form of a point model: each coordinate's big-endian
/// encoding byte-reversed, x first. The identity's model carries all-zero
/// coordinates, so it encodes to 64 zero bytes.
pub open spec fn encode_model(m: (bool, Seq<u8>, Seq<u8>)) -> Seq<u8> {
    m.1.reverse() + m.2.reverse()
}

/// What decoding 64 bytes yields: the point model on success, and the exact
/// error otherwise. A coordinate at or above the field modulus is rejected
/// first (x before y); the pair (0, 0) is the identity; any other pair must
/// satisfy the curve equation.
pub open spec fn decode_model(b: Seq<u8>) -> Result<(bool, Seq<u8>, Seq<u8>), DecodingError> {
    let x = le64_x(b);
    let y = le64_y(b);
    if !fq_in_range(x) {
        Err(DecodingError::FieldOutOfRange(Coordinate::X))
    } else if !fq_in_range(y) {
        Err(DecodingError::FieldOutOfRange(Coordinate::Y))
    } else if x == zero32() && y == zero32() {
        Ok((true, zero32(), zero32()))
    } else if on_curve(x, y) {
        Ok((false, x, y))
    } else {
        Err(DecodingError::NotOnCurve)
    }
}

/// The models that actual points produce: the identity's canonical model,
/// or an in-range, on-curve, nonzero affine coordinate pair.
pub open spec fn valid_model(m: (bool, Seq<u8>, Seq<u8>)) -> bool {
    if m.0 {
        m.1 == zero32() && m.2 == zero32()
    } else {
        &&& m.1.len() == 32
        &&& m.2.len() == 32
        &&& fq_in_range(m.1)
        &&& fq_in_range(m.2)
        &&& on_curve(m.1, m.2)
        &&& !(m.1 == zero32() && m.2 == zero32())
    }
}

/// Encodes a point into the 64-byte little-endian wire layout. The identity
/// becomes 64 zero bytes; any other point becomes its affine coordinates,
/// each serialized big-endian and then byte-reversed, x first. A field
/// serialization failure would surface as `FieldSerialization`, but the
/// serializer accepts every 32-byte buffer, so encoding always succeeds.
pub fn point_to_le(p: &substrate_bn::G1) -> (r: Result<[u8; 64], EncodingError>)
    ensures
        r is Ok,
        r is Ok ==> r->Ok_0@ == encode_model(g1_model(*p)),
        r is Ok && g1_valid(*p) ==> valid_model(g1_model(*p)),
{
    let (xb, yb): ([u8; 32], [u8; 32]) = if g1_is_identity(p) {
        let zero = fq_zero();
        let zb = match fq_to_be(&zero) {
            Ok(bytes) => bytes,
            Err(_) => {
                return Err(EncodingError::FieldSerialization);
            },
        };
        (zb, zb)
    } else {
        let affine = match g1_to_affine(p) {
            Some(a) => a,
            None => {
                return Err(EncodingError::FieldSerialization);
            },
        };
        let x = affine_x(&affine);
        let y = affine_y(&affine);
        let xb = match fq_to_be(&x) {
            Ok(bytes) => bytes,
            Err(_) => {
                return Err(EncodingError::FieldSerialization);
            },
        };
        let yb = match fq_to_be(&y) {
            Ok(bytes) => bytes,
            Err(_) => {
                return Err(EncodingError::FieldSerialization);
            },
        };
        (xb, yb)
    };
    let ghost m = g1_model(*p);
    assert(xb@ == m.1 && yb@ == m.2);
    let mut out = [0u8; 64];
    let mut i: usize = 0;
    while i < 32
        invariant
            i <= 32,
            xb@.len() == 32,
            yb@.len() == 32,
            forall|j: int| 0 <= j < i ==> (#[trigger] out@[j]) == xb@[31 - j],
            forall|j: int| 0 <= j < i ==> (#[trigger] out@[32 + j]) == yb@[31 - j],
        decreases 32 - i,
    {
        out[i] = xb[31 - i];
        out[32 + i] = yb[31 - i];
        i = i + 1;
    }
    proof {
        let enc = xb@.reverse() + yb@.reverse();
        assert forall|j: int| 0 <= j < 64 implies out@[j] == enc[j] by {
            if j < 32 {
                assert(enc[j] == xb@.reverse()[j]);
                assert(out@[j] == xb@[31 - j]);
            } else {
                assert(enc[j] == yb@.reverse()[j - 32]);
                assert(out@[32 + (j - 32)] == yb@[31 - (j - 32)]);
            }
        }
        assert(out@ =~= xb@.reverse() + yb@.reverse());
    }
    Ok(out)
}

/// Decodes the first 64 bytes of a buffer into a G1 point, as
/// `decode_model` states: out-of-range coordinates are rejected with the
/// failing coordinate named, the pair (0, 0) is the identity, and any other
/// pair must lie on the curve.
pub fn le_to_point(b: &[u8]) -> (r: Result<substrate_bn::G1, DecodingError>)
    requires
        b@.len() >= 64,
    ensures
        r is Ok <==> decode_model(b@.take(64)) is Ok,
        r is Ok ==> g1_model(r->Ok_0) == decode_model(b@.take(64))->Ok_0,
        r is Ok ==> g1_valid(r->Ok_0),
        r is Err ==> r->Err_0 == decode_model(b@.take(64))->Err_0,
{
    let mut xb = [0u8; 32];
    let mut yb = [0u8; 32];
    let mut i: usize = 0;
    while i < 32
        invariant
            i <= 32,
            b@.len() >= 64,
            forall|j: int| 0 <= j < i ==> xb@[j] == b@[31 - j],
            forall|j: int| 0 <= j < i ==> yb@[j] == b@[63 - j],
        decreases 32 - i,
    {
        xb[i] = b[31 - i];
        yb[i] = b[63 - i];
        i = i + 1;
    }
    proof {
        assert(xb@ =~= le64_x(b@.take(64)));
        assert(yb@ =~= le64_y(b@.take(64)));
        assert(xb@.take(32) =~= xb@);
        assert(yb@.take(32) =~= yb@);
    }
    let px = match read_fq(xb.as_slice()) {
        Ok(f) => f,
        Err(_) => {
            return Err(DecodingError::FieldOutOfRange(Coordinate::X));
        },
    };
    let py = match read_fq(yb.as_slice()) {
        Ok(f) => f,
        Err(_) => {
            return Err(DecodingError::FieldOutOfRange(Coordinate::Y));
        },
    };
    match new_g1_point(px, py) {
        Ok(p) => Ok(p),
        Err(_) => Err(DecodingError::NotOnCurve),
    }
}

/// Round trip from a point: every valid point model decodes back from its
/// own encoding. Together with the codec contracts this says that decoding
/// the encoding of any point the external library can produce succeeds and
/// yields a point with the same model.
pub proof fn lemma_round_trip_point(m: (bool, Seq<u8>, Seq<u8>))
    requires
        valid_model(m),
    ensures
        decode_model(encode_model(m)) == Ok::<(bool, Seq<u8>, Seq<u8>), DecodingError>(m),
{
    let b = encode_model(m);
    assert(b.take(32) =~= m.1.reverse());
    assert(b.subrange(32, 64) =~= m.2.reverse());
    assert(le64_x(b) =~= m.1);
    assert(le64_y(b) =~= m.2);
    lemma_be_val_zeros(zero32());
    if m.0 {
        assert(m == (true, zero32(), zero32()));
    } else {
        assert(m == (false, m.1, m.2));
    }
}

/// The wire encoding of the group's canonical generator, the point (1, 2):
/// byte 0 is 1, byte 32 is 2, and every other byte is zero.
pub open spec fn generator_vector() -> Seq<u8> {
    Seq::new(
        64,
        |i: int|
            if i == 0 {
                1u8
            } else if i == 32 {
                2u8
            } else {
                0u8
            },
    )
}

/// The model of the canonical generator: the affine pair (1, 2).
pub open spec fn generator_model() -> (bool, Seq<u8>, Seq<u8>) {
    (false, small_be32(1), small_be32(2))
}

/// The canonical generator's 64-byte wire encoding, pinned to the known
/// vector: encoding the generator yields exactly these bytes, and decoding
/// them yields exactly the generator's model.
pub fn generator_le() -> (r: [u8; 64])
    ensures
        r@ == generator_vector(),
        decode_model(generator_vector()) == Ok::<(bool, Seq<u8>, Seq<u8>), DecodingError>(
            generator_model(),
        ),
{
    let g = g1_one();
    let bytes = match point_to_le(&g) {
        Ok(b) => b,
        Err(_) => {
            proof {
                assert(false);
            }
            [0u8; 64]
        },
    };
    proof {
        let m = generator_model();
        assert(bytes@ == encode_model(m));
        assert forall|i: int| 0 <= i < 64 implies encode_model(m)[i] == generator_vector()[i] by {
            if i < 32 {
                assert(encode_model(m)[i] == small_be32(1).reverse()[i]);
            } else {
                assert(encode_model(m)[i] == small_be32(2).reverse()[i - 32]);
            }
        }
        assert(bytes@ =~= generator_vector());
        lemma_be_val_small(1);
        lemma_be_val_small(2);
        assert(small_be32(1)[31] != zero32()[31]);
        assert(valid_model(m));
        lemma_round_trip_point(m);
    }
    bytes
}

/// Round trip from bytes: a 64-byte buffer that decodes successfully is
/// reproduced exactly by encoding the decoded point.
pub proof fn lemma_round_trip_bytes(b: Seq<u8>)
    requires
        b.len() == 64,
        decode_model(b) is Ok,
    ensures
        encode_model(decode_model(b)->Ok_0) == b,
{
    let m = decode_model(b)->Ok_0;
    assert(m.1 =~= le64_x(b));
    assert(m.2 =~= le64_y(b));
    assert(m.1.reverse() =~= b.take(32));
    assert(m.2.reverse() =~= b.subrange(32, 64));
    assert(encode_model(m) =~= b);
}

} // verus!
