//! The wire framing: each message travels as a 4-byte big-endian length
//! followed by the payload.

use vstd::prelude::*;

use crate::encoding::{be32, be32_bytes, be32_decode, push_be32, push_bytes};

verus! {

/// The frame of a payload: its length in four big-endian bytes, then the
/// payload itself.
pub open spec fn frame_enc(payload: Seq<u8>) -> Seq<u8> {
    be32_bytes(payload.len() as u32) + payload
}

/// Frames a payload; a payload whose length exceeds the 4-byte length field is
/// refused.
pub fn encode_frame(payload: &Vec<u8>) -> (r: Option<Vec<u8>>)
    ensures
        payload@.len() <= 0xFFFF_FFFF ==> (r matches Some(v) && v@ == frame_enc(payload@)),
        payload@.len() > 0xFFFF_FFFF ==> r is None,
{
    if payload.len() > 0xFFFF_FFFF {
        return None;
    }
    let n = payload.len() as u32;
    let mut v: Vec<u8> = Vec::new();
    push_be32(&mut v, n);
    push_bytes(&mut v, payload);
    proof {
        assert(v@ =~= frame_enc(payload@));
    }
    Some(v)
}

/// Reads the body length from a 4-byte frame header.
pub fn frame_length(header: &Vec<u8>) -> (r: Option<u32>)
    ensures
        header@.len() == 4 ==> (r matches Some(n) && n == be32(
            header@[0],
            header@[1],
            header@[2],
            header@[3],
        )),
        header@.len() != 4 ==> r is None,
{
    if header.len() != 4 {
        return None;
    }
    Some(be32_decode(header[0], header[1], header[2], header[3]))
}

} // verus!
