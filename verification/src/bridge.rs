//! The software side of the accelerated-point-operation contract: in-place
//! addition and doubling on 64-byte encoded points, computed through the
//! external group law. A host environment may substitute native instructions
//! for these; both must take and leave the buffers in the codec's layout,
//! so the result of either path decodes to the same group element.

use crate::codec::decode_model;
use crate::codec::encode_model;
use crate::codec::le_to_point;
use crate::codec::lemma_round_trip_bytes;
use crate::codec::point_to_le;
use crate::codec::DecodingError;
use crate::point::g1_add;
use crate::point::g1_sum;
use vstd::prelude::*;

verus! {

/// The model of the sum of the two points held by two decodable buffers.
pub open spec fn buffer_sum(acc: Seq<u8>, op: Seq<u8>) -> (bool, Seq<u8>, Seq<u8>) {
    let a = decode_model(acc)->Ok_0;
    let b = decode_model(op)->Ok_0;
    g1_sum(a.0, a.1, a.2, b.0, b.1, b.2)
}

/// In-place point addition on encoded buffers: the accumulator is
/// overwritten with the encoding of the group sum of the two points. Both
/// buffers must hold valid encodings; `software_add_checked` validates
/// them first and is the entry for untrusted buffers. Adding an encoded
/// identity absorbs: an identity operand leaves the accumulator's bytes
/// unchanged, and an identity accumulator takes the operand's bytes.
pub fn software_add(acc: &mut [u8; 64], op: &[u8; 64])
    requires
        decode_model(old(acc)@) is Ok,
        decode_model(op@) is Ok,
    ensures
        final(acc)@ == encode_model(buffer_sum(old(acc)@, op@)),
        (decode_model(op@)->Ok_0).0 ==> final(acc)@ == old(acc)@,
        (decode_model(old(acc)@)->Ok_0).0 ==> final(acc)@ == op@,
{
    proof {
        assert(acc@.take(64) =~= acc@);
        assert(op@.take(64) =~= op@);
    }
    let p = match le_to_point(acc.as_slice()) {
        Ok(p) => p,
        Err(_) => {
            proof {
                assert(false);
            }
            return;
        },
    };
    let q = match le_to_point(op.as_slice()) {
        Ok(q) => q,
        Err(_) => {
            proof {
                assert(false);
            }
            return;
        },
    };
    let s = g1_add(&p, &q);
    match point_to_le(&s) {
        Ok(bytes) => {
            proof {
                if (decode_model(op@)->Ok_0).0 {
                    lemma_round_trip_bytes(old(acc)@);
                }
                if (decode_model(old(acc)@)->Ok_0).0 {
                    lemma_round_trip_bytes(op@);
                }
            }
            *acc = bytes;
        },
        Err(_) => {
            proof {
                assert(false);
            }
        },
    }
}

/// In-place point addition that first validates both buffers: on any
/// decoding failure the accumulator is left unchanged and the error names
/// what was wrong, the accumulator's fault being reported first.
pub fn software_add_checked(acc: &mut [u8; 64], op: &[u8; 64]) -> (r: Result<(), DecodingError>)
    ensures
        r is Ok <==> (decode_model(old(acc)@) is Ok && decode_model(op@) is Ok),
        r is Ok ==> final(acc)@ == encode_model(buffer_sum(old(acc)@, op@)),
        r is Ok && (decode_model(op@)->Ok_0).0 ==> final(acc)@ == old(acc)@,
        r is Ok && (decode_model(old(acc)@)->Ok_0).0 ==> final(acc)@ == op@,
        r is Err ==> final(acc)@ == old(acc)@,
        decode_model(old(acc)@) is Err ==> r == Err::<(), DecodingError>(
            decode_model(old(acc)@)->Err_0,
        ),
        decode_model(old(acc)@) is Ok && decode_model(op@) is Err ==> r == Err::<
            (),
            DecodingError,
        >(decode_model(op@)->Err_0),
{
    proof {
        assert(acc@.take(64) =~= acc@);
        assert(op@.take(64) =~= op@);
    }
    match le_to_point(acc.as_slice()) {
        Ok(_) => (),
        Err(e) => {
            return Err(e);
        },
    }
    match le_to_point(op.as_slice()) {
        Ok(_) => (),
        Err(e) => {
            return Err(e);
        },
    }
    software_add(acc, op);
    Ok(())
}

/// In-place point doubling on an encoded buffer: the accumulator is
/// overwritten with the encoding of twice its point, computed as the group
/// sum of the point with itself. The buffer must hold a valid encoding;
/// `software_double_checked` validates it first. Doubling an encoded
/// identity leaves the bytes unchanged.
pub fn software_double(acc: &mut [u8; 64])
    requires
        decode_model(old(acc)@) is Ok,
    ensures
        final(acc)@ == encode_model(buffer_sum(old(acc)@, old(acc)@)),
        (decode_model(old(acc)@)->Ok_0).0 ==> final(acc)@ == old(acc)@,
{
    proof {
        assert(acc@.take(64) =~= acc@);
    }
    let p = match le_to_point(acc.as_slice()) {
        Ok(p) => p,
        Err(_) => {
            proof {
                assert(false);
            }
            return;
        },
    };
    let s = g1_add(&p, &p);
    match point_to_le(&s) {
        Ok(bytes) => {
            proof {
                if (decode_model(old(acc)@)->Ok_0).0 {
                    lemma_round_trip_bytes(old(acc)@);
                }
            }
            *acc = bytes;
        },
        Err(_) => {
            proof {
                assert(false);
            }
        },
    }
}

/// In-place point doubling that first validates the buffer: on a decoding
/// failure the accumulator is left unchanged and the error is reported.
pub fn software_double_checked(acc: &mut [u8; 64]) -> (r: Result<(), DecodingError>)
    ensures
        r is Ok <==> decode_model(old(acc)@) is Ok,
        r is Ok ==> final(acc)@ == encode_model(buffer_sum(old(acc)@, old(acc)@)),
        r is Ok && (decode_model(old(acc)@)->Ok_0).0 ==> final(acc)@ == old(acc)@,
        r is Err ==> final(acc)@ == old(acc)@ && r == Err::<(), DecodingError>(
            decode_model(old(acc)@)->Err_0,
        ),
{
    proof {
        assert(acc@.take(64) =~= acc@);
    }
    match le_to_point(acc.as_slice()) {
        Ok(_) => (),
        Err(e) => {
            return Err(e);
        },
    }
    software_double(acc);
    Ok(())
}

} // verus!
