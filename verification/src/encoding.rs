//! Byte-level encodings shared by the covenant-hash computation and the wire
//! framing: little-endian integers, big-endian integers and the consensus
//! variable-length integer.

use vstd::prelude::*;

verus! {

/// Little-endian encoding of a 16-bit value.
pub open spec fn le16(v: u16) -> Seq<u8> {
    seq![(v as int % 256) as u8, (v as int / 256 % 256) as u8]
}

/// Little-endian encoding of a 32-bit value.
pub open spec fn le32(v: u32) -> Seq<u8> {
    seq![
        (v as int % 256) as u8,
        (v as int / 0x100 % 256) as u8,
        (v as int / 0x10000 % 256) as u8,
        (v as int / 0x1000000 % 256) as u8,
    ]
}

/// Little-endian encoding of a 64-bit value.
pub open spec fn le64(v: u64) -> Seq<u8> {
    seq![
        (v as int % 256) as u8,
        (v as int / 0x100 % 256) as u8,
        (v as int / 0x10000 % 256) as u8,
        (v as int / 0x1000000 % 256) as u8,
        (v as int / 0x100000000 % 256) as u8,
        (v as int / 0x10000000000 % 256) as u8,
        (v as int / 0x1000000000000 % 256) as u8,
        (v as int / 0x100000000000000 % 256) as u8,
    ]
}

/// The 32-bit value read from four bytes in big-endian order.
pub open spec fn be32(b0: u8, b1: u8, b2: u8, b3: u8) -> int {
    b0 * 0x1000000 + b1 * 0x10000 + b2 * 0x100 + b3
}

/// Big-endian encoding of a 32-bit value.
pub open spec fn be32_bytes(v: u32) -> Seq<u8> {
    seq![
        (v as int / 0x1000000 % 256) as u8,
        (v as int / 0x10000 % 256) as u8,
        (v as int / 0x100 % 256) as u8,
        (v as int % 256) as u8,
    ]
}

/// The consensus variable-length integer ("compact size") encoding.
pub open spec fn compact_size(n: u64) -> Seq<u8> {
    if n < 0xFD {
        seq![n as u8]
    } else if n <= 0xFFFF {
        seq![0xFDu8] + le16(n as u16)
    } else if n <= 0xFFFF_FFFF {
        seq![0xFEu8] + le32(n as u32)
    } else {
        seq![0xFFu8] + le64(n)
    }
}

/// Reads a 32-bit value from four bytes in big-endian order.
pub fn be32_decode(b0: u8, b1: u8, b2: u8, b3: u8) -> (r: u32)
    ensures
        r == be32(b0, b1, b2, b3),
{
    (b0 as u32) * 0x1000000 + (b1 as u32) * 0x10000 + (b2 as u32) * 0x100 + (b3 as u32)
}

/// Appends the big-endian encoding of `v`.
pub fn push_be32(out: &mut Vec<u8>, v: u32)
    ensures
        final(out)@ == old(out)@ + be32_bytes(v),
{
    out.push((v / 0x1000000) as u8);
    out.push((v / 0x10000 % 256) as u8);
    out.push((v / 0x100 % 256) as u8);
    out.push((v % 256) as u8);
    proof {
        assert(out@ =~= old(out)@ + be32_bytes(v));
    }
}

/// Appends the little-endian encoding of `v`.
pub fn push_le32(out: &mut Vec<u8>, v: u32)
    ensures
        final(out)@ == old(out)@ + le32(v),
{
    out.push((v % 256) as u8);
    out.push((v / 0x100 % 256) as u8);
    out.push((v / 0x10000 % 256) as u8);
    out.push((v / 0x1000000) as u8);
    proof {
        assert(out@ =~= old(out)@ + le32(v));
    }
}

/// Appends the little-endian encoding of `v`.
pub fn push_le64(out: &mut Vec<u8>, v: u64)
    ensures
        final(out)@ == old(out)@ + le64(v),
{
    out.push((v % 256) as u8);
    out.push((v / 0x100 % 256) as u8);
    out.push((v / 0x10000 % 256) as u8);
    out.push((v / 0x1000000 % 256) as u8);
    out.push((v / 0x100000000 % 256) as u8);
    out.push((v / 0x10000000000 % 256) as u8);
    out.push((v / 0x1000000000000 % 256) as u8);
    out.push((v / 0x100000000000000 % 256) as u8);
    proof {
        assert(out@ =~= old(out)@ + le64(v));
    }
}

/// Appends the compact-size encoding of `n`.
pub fn push_compact_size(out: &mut Vec<u8>, n: u64)
    ensures
        final(out)@ == old(out)@ + compact_size(n),
{
    if n < 0xFD {
        out.push(n as u8);
        proof {
            assert(out@ =~= old(out)@ + compact_size(n));
        }
    } else if n <= 0xFFFF {
        out.push(0xFD);
        out.push((n % 256) as u8);
        out.push((n / 256) as u8);
        proof {
            assert(out@ =~= old(out)@ + compact_size(n));
        }
    } else if n <= 0xFFFF_FFFF {
        out.push(0xFE);
        out.push((n % 256) as u8);
        out.push((n / 0x100 % 256) as u8);
        out.push((n / 0x10000 % 256) as u8);
        out.push((n / 0x1000000 % 256) as u8);
        proof {
            assert(out@ =~= old(out)@ + compact_size(n));
        }
    } else {
        out.push(0xFF);
        push_le64(out, n);
        proof {
            assert(out@ =~= old(out)@ + compact_size(n));
        }
    }
}

/// Appends all of `data`.
pub fn push_bytes(out: &mut Vec<u8>, data: &Vec<u8>)
    ensures
        final(out)@ == old(out)@ + data@,
{
    let mut i: usize = 0;
    while i < data.len()
        invariant
            i <= data@.len(),
            out@ == old(out)@ + data@.take(i as int),
        decreases data@.len() - i,
    {
        out.push(data[i]);
        proof {
            assert(out@ =~= old(out)@ + data@.take(i + 1));
        }
        i += 1;
    }
    proof {
        assert(data@.take(data@.len() as int) =~= data@);
    }
}

/// Returns a copy of the byte vector.
pub fn clone_bytes(v: &Vec<u8>) -> (r: Vec<u8>)
    ensures
        r@ == v@,
{
    let mut r: Vec<u8> = Vec::new();
    push_bytes(&mut r, v);
    proof {
        assert(r@ =~= v@);
    }
    r
}

} // verus!
