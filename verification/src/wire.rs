//! Little-endian wire primitives shared by the MAC frame codec and the
//! network-layer codec: reading integers from a byte buffer at a moving
//! cursor, and appending integers to a buffer under construction.

use vstd::prelude::*;

verus! {

/// The single, undifferentiated error for any malformed or truncated input,
/// raised by the MAC frame decoder and the network-layer packet parser.
#[derive(Debug, Clone)]
pub struct ParseError;

/// The 16-bit value stored little-endian at `off` in `b`.
pub open spec fn le16_at(b: Seq<u8>, off: int) -> u16
    recommends
        0 <= off,
        off + 2 <= b.len(),
{
    (b[off] as u16) | ((b[off + 1] as u16) << 8)
}

/// The 32-bit value stored little-endian at `off` in `b`.
pub open spec fn le32_at(b: Seq<u8>, off: int) -> u32
    recommends
        0 <= off,
        off + 4 <= b.len(),
{
    (b[off] as u32) | ((b[off + 1] as u32) << 8) | ((b[off + 2] as u32) << 16) | ((b[off
        + 3] as u32) << 24)
}

/// The 64-bit value stored little-endian at `off` in `b`.
pub open spec fn le64_at(b: Seq<u8>, off: int) -> u64
    recommends
        0 <= off,
        off + 8 <= b.len(),
{
    (b[off] as u64) | ((b[off + 1] as u64) << 8) | ((b[off + 2] as u64) << 16) | ((b[off
        + 3] as u64) << 24) | ((b[off + 4] as u64) << 32) | ((b[off + 5] as u64) << 40) | ((b[off
        + 6] as u64) << 48) | ((b[off + 7] as u64) << 56)
}

/// The two little-endian bytes of a 16-bit value.
pub open spec fn le16_bytes(x: u16) -> Seq<u8> {
    seq![(x & 0xff) as u8, ((x >> 8) & 0xff) as u8]
}

/// The eight little-endian bytes of a 64-bit value.
pub open spec fn le64_bytes(x: u64) -> Seq<u8> {
    seq![
        (x & 0xff) as u8,
        ((x >> 8) & 0xff) as u8,
        ((x >> 16) & 0xff) as u8,
        ((x >> 24) & 0xff) as u8,
        ((x >> 32) & 0xff) as u8,
        ((x >> 40) & 0xff) as u8,
        ((x >> 48) & 0xff) as u8,
        ((x >> 56) & 0xff) as u8,
    ]
}

/// Writing the bytes of a 16-bit value and reading them back yields the value,
/// and reading two bytes and re-writing them reproduces the bytes.
pub proof fn lemma_le16_round_trip(b: Seq<u8>, off: int)
    requires
        0 <= off,
        off + 2 <= b.len(),
    ensures
        le16_bytes(le16_at(b, off)) == b.subrange(off, off + 2),
        le16_at(b, off) & 0xff == b[off],
        (le16_at(b, off) >> 8) & 0xff == b[off + 1],
{
    let b0 = b[off];
    let b1 = b[off + 1];
    let x = le16_at(b, off);
    assert(((b0 as u16) | ((b1 as u16) << 8)) & 0xff == b0) by (bit_vector);
    assert((((b0 as u16) | ((b1 as u16) << 8)) >> 8) & 0xff == b1) by (bit_vector);
    assert(le16_bytes(x) =~= b.subrange(off, off + 2));
}

/// The analogue of `lemma_le16_round_trip` for 64-bit values.
pub proof fn lemma_le64_round_trip(b: Seq<u8>, off: int)
    requires
        0 <= off,
        off + 8 <= b.len(),
    ensures
        le64_bytes(le64_at(b, off)) == b.subrange(off, off + 8),
{
    let b0 = b[off];
    let b1 = b[off + 1];
    let b2 = b[off + 2];
    let b3 = b[off + 3];
    let b4 = b[off + 4];
    let b5 = b[off + 5];
    let b6 = b[off + 6];
    let b7 = b[off + 7];
    let x = le64_at(b, off);
    assert({
        let v = (b0 as u64) | ((b1 as u64) << 8) | ((b2 as u64) << 16) | ((b3 as u64) << 24) | ((
        b4 as u64) << 32) | ((b5 as u64) << 40) | ((b6 as u64) << 48) | ((b7 as u64) << 56);
        v & 0xff == b0 && (v >> 8) & 0xff == b1 && (v >> 16) & 0xff == b2 && (v >> 24) & 0xff == b3
            && (v >> 32) & 0xff == b4 && (v >> 40) & 0xff == b5 && (v >> 48) & 0xff == b6 && (v
            >> 56) & 0xff == b7
    }) by (bit_vector);
    assert(le64_bytes(x) =~= b.subrange(off, off + 8));
}

/// Two adjacent pieces of a buffer, taken together, are the enclosing piece.
pub proof fn lemma_subrange_adjacent(b: Seq<u8>, i: int, j: int, k: int)
    requires
        0 <= i <= j <= k <= b.len(),
    ensures
        b.subrange(i, j) + b.subrange(j, k) == b.subrange(i, k),
{
    assert(b.subrange(i, j) + b.subrange(j, k) =~= b.subrange(i, k));
}

/// Reads one byte at the cursor and advances it; fails when the buffer is
/// exhausted.
pub fn read_u8(bytes: &[u8], offset: &mut usize) -> (r: Result<u8, ParseError>)
    ensures
        *old(offset) + 1 <= bytes@.len() ==> {
            &&& r is Ok
            &&& r->Ok_0 == bytes@[*old(offset) as int]
            &&& *final(offset) == *old(offset) + 1
        },
        *old(offset) + 1 > bytes@.len() ==> r is Err && *final(offset) == *old(offset),
{
    if *offset < bytes.len() {
        let v = bytes[*offset];
        *offset = *offset + 1;
        Ok(v)
    } else {
        Err(ParseError)
    }
}

/// Reads a little-endian 16-bit value at the cursor and advances it two
/// bytes; fails when fewer than two bytes remain.
pub fn read_u16_le(bytes: &[u8], offset: &mut usize) -> (r: Result<u16, ParseError>)
    ensures
        *old(offset) + 2 <= bytes@.len() ==> {
            &&& r is Ok
            &&& r->Ok_0 == le16_at(bytes@, *old(offset) as int)
            &&& *final(offset) == *old(offset) + 2
        },
        *old(offset) + 2 > bytes@.len() ==> r is Err && *final(offset) == *old(offset),
{
    if bytes.len() >= 2 && *offset <= bytes.len() - 2 {
        let b0 = bytes[*offset];
        let b1 = bytes[*offset + 1];
        *offset = *offset + 2;
        Ok((b0 as u16) | ((b1 as u16) << 8))
    } else {
        Err(ParseError)
    }
}

/// Reads a little-endian 32-bit value at the cursor and advances it four
/// bytes; fails when fewer than four bytes remain.
pub fn read_u32_le(bytes: &[u8], offset: &mut usize) -> (r: Result<u32, ParseError>)
    ensures
        *old(offset) + 4 <= bytes@.len() ==> {
            &&& r is Ok
            &&& r->Ok_0 == le32_at(bytes@, *old(offset) as int)
            &&& *final(offset) == *old(offset) + 4
        },
        *old(offset) + 4 > bytes@.len() ==> r is Err && *final(offset) == *old(offset),
{
    if bytes.len() >= 4 && *offset <= bytes.len() - 4 {
        let b0 = bytes[*offset];
        let b1 = bytes[*offset + 1];
        let b2 = bytes[*offset + 2];
        let b3 = bytes[*offset + 3];
        *offset = *offset + 4;
        Ok((b0 as u32) | ((b1 as u32) << 8) | ((b2 as u32) << 16) | ((b3 as u32) << 24))
    } else {
        Err(ParseError)
    }
}

/// Reads a little-endian 64-bit value at the cursor and advances it eight
/// bytes; fails when fewer than eight bytes remain.
pub fn read_u64_le(bytes: &[u8], offset: &mut usize) -> (r: Result<u64, ParseError>)
    ensures
        *old(offset) + 8 <= bytes@.len() ==> {
            &&& r is Ok
            &&& r->Ok_0 == le64_at(bytes@, *old(offset) as int)
            &&& *final(offset) == *old(offset) + 8
        },
        *old(offset) + 8 > bytes@.len() ==> r is Err && *final(offset) == *old(offset),
{
    if bytes.len() >= 8 && *offset <= bytes.len() - 8 {
        let b0 = bytes[*offset];
        let b1 = bytes[*offset + 1];
        let b2 = bytes[*offset + 2];
        let b3 = bytes[*offset + 3];
        let b4 = bytes[*offset + 4];
        let b5 = bytes[*offset + 5];
        let b6 = bytes[*offset + 6];
        let b7 = bytes[*offset + 7];
        *offset = *offset + 8;
        Ok(
            (b0 as u64) | ((b1 as u64) << 8) | ((b2 as u64) << 16) | ((b3 as u64) << 24) | ((
            b4 as u64) << 32) | ((b5 as u64) << 40) | ((b6 as u64) << 48) | ((b7 as u64) << 56),
        )
    } else {
        Err(ParseError)
    }
}

/// Appends the two little-endian bytes of a 16-bit value.
pub fn push_u16_le(out: &mut Vec<u8>, x: u16)
    ensures
        final(out)@ == old(out)@ + le16_bytes(x),
{
    out.push((x & 0xff) as u8);
    out.push(((x >> 8) & 0xff) as u8);
    assert(out@ =~= old(out)@ + le16_bytes(x));
}

/// Appends the eight little-endian bytes of a 64-bit value.
pub fn push_u64_le(out: &mut Vec<u8>, x: u64)
    ensures
        final(out)@ == old(out)@ + le64_bytes(x),
{
    out.push((x & 0xff) as u8);
    out.push(((x >> 8) & 0xff) as u8);
    out.push(((x >> 16) & 0xff) as u8);
    out.push(((x >> 24) & 0xff) as u8);
    out.push(((x >> 32) & 0xff) as u8);
    out.push(((x >> 40) & 0xff) as u8);
    out.push(((x >> 48) & 0xff) as u8);
    out.push(((x >> 56) & 0xff) as u8);
    assert(out@ =~= old(out)@ + le64_bytes(x));
}

/// Copies a byte sequence; the copy and the original have equal contents.
pub fn clone_bytes(v: &[u8]) -> (r: Vec<u8>)
    ensures
        r@ == v@,
{
    let mut out: Vec<u8> = Vec::new();
    let mut i: usize = 0;
    while i < v.len()
        invariant
            i <= v@.len(),
            out@ == v@.subrange(0, i as int),
        decreases v@.len() - i,
    {
        out.push(v[i]);
        i = i + 1;
        assert(out@ =~= v@.subrange(0, i as int));
    }
    assert(out@ =~= v@);
    out
}

} // verus!
