//! Canonical little-endian byte encoding of the integer types that appear in
//! model files, verifying keys, outputs and proofs.

use vstd::prelude::*;

verus! {

/// The unsigned 32-bit value held by four little-endian bytes.
pub open spec fn u32_from_le(b: Seq<u8>) -> u32
    recommends
        b.len() == 4,
{
    (b[0] + b[1] * 0x100 + b[2] * 0x10000 + b[3] * 0x1000000) as u32
}

/// The four little-endian bytes of an unsigned 32-bit value.
pub open spec fn u32_to_le(x: u32) -> Seq<u8> {
    seq![
        (x % 0x100) as u8,
        ((x / 0x100) % 0x100) as u8,
        ((x / 0x10000) % 0x100) as u8,
        ((x / 0x1000000) % 0x100) as u8,
    ]
}

/// The unsigned 64-bit value held by eight little-endian bytes.
pub open spec fn u64_from_le(b: Seq<u8>) -> u64
    recommends
        b.len() == 8,
{
    (b[0] + b[1] * 0x100 + b[2] * 0x10000 + b[3] * 0x1000000 + b[4] * 0x100000000
        + b[5] * 0x10000000000 + b[6] * 0x1000000000000 + b[7] * 0x100000000000000) as u64
}

/// The eight little-endian bytes of an unsigned 64-bit value.
pub open spec fn u64_to_le(x: u64) -> Seq<u8> {
    seq![
        (x % 0x100) as u8,
        ((x / 0x100) % 0x100) as u8,
        ((x / 0x10000) % 0x100) as u8,
        ((x / 0x1000000) % 0x100) as u8,
        ((x / 0x100000000) % 0x100) as u8,
        ((x / 0x10000000000) % 0x100) as u8,
        ((x / 0x1000000000000) % 0x100) as u8,
        ((x / 0x100000000000000) % 0x100) as u8,
    ]
}

/// The unsigned 32-bit value that stands for a signed one in two's complement.
pub open spec fn u32_of_i32(x: i32) -> u32 {
    if x >= 0 {
        x as u32
    } else {
        (x + 0x100000000) as u32
    }
}

/// The signed 32-bit value that an unsigned one stands for in two's complement.
pub open spec fn i32_of_u32(n: u32) -> i32 {
    if n < 0x80000000 {
        n as i32
    } else {
        (n - 0x100000000) as i32
    }
}

/// The unsigned 64-bit value that stands for a signed one in two's complement.
pub open spec fn u64_of_i64(x: i64) -> u64 {
    if x >= 0 {
        x as u64
    } else {
        (x + 0x10000000000000000) as u64
    }
}

/// The signed 64-bit value that an unsigned one stands for in two's complement.
pub open spec fn i64_of_u64(n: u64) -> i64 {
    if n < 0x8000000000000000 {
        n as i64
    } else {
        (n - 0x10000000000000000) as i64
    }
}

/// The four little-endian bytes of a signed 32-bit value.
pub open spec fn i32_to_le(x: i32) -> Seq<u8> {
    u32_to_le(u32_of_i32(x))
}

/// The signed 32-bit value held by four little-endian bytes.
pub open spec fn i32_from_le(b: Seq<u8>) -> i32 {
    i32_of_u32(u32_from_le(b))
}

/// The eight little-endian bytes of a signed 64-bit value.
pub open spec fn i64_to_le(x: i64) -> Seq<u8> {
    u64_to_le(u64_of_i64(x))
}

/// The signed 64-bit value held by eight little-endian bytes.
pub open spec fn i64_from_le(b: Seq<u8>) -> i64 {
    i64_of_u64(u64_from_le(b))
}

/// Decoding the four bytes of an unsigned 32-bit value gives it back.
pub proof fn lemma_u32_le_round_trip(x: u32)
    ensures
        u32_to_le(x).len() == 4,
        u32_from_le(u32_to_le(x)) == x,
{
}

/// Decoding the eight bytes of an unsigned 64-bit value gives it back.
pub proof fn lemma_u64_le_round_trip(x: u64)
    ensures
        u64_to_le(x).len() == 8,
        u64_from_le(u64_to_le(x)) == x,
{
    assert(x % 0x100 + (x / 0x100) % 0x100 * 0x100 + (x / 0x10000) % 0x100 * 0x10000 + (x
        / 0x1000000) % 0x100 * 0x1000000 + (x / 0x100000000) % 0x100 * 0x100000000 + (x
        / 0x10000000000) % 0x100 * 0x10000000000 + (x / 0x1000000000000) % 0x100
        * 0x1000000000000 + (x / 0x100000000000000) % 0x100 * 0x100000000000000 == x)
        by (bit_vector);
}

/// Decoding the eight bytes of a signed 64-bit value gives it back.
pub proof fn lemma_i64_le_round_trip(x: i64)
    ensures
        i64_to_le(x).len() == 8,
        i64_from_le(i64_to_le(x)) == x,
{
    lemma_u64_le_round_trip(u64_of_i64(x));
}

/// Appends the four little-endian bytes of `x` to `out`.
pub fn push_u32_le(out: &mut Vec<u8>, x: u32)
    ensures
        final(out)@ == old(out)@ + u32_to_le(x),
{
    out.push((x % 0x100) as u8);
    out.push(((x / 0x100) % 0x100) as u8);
    out.push(((x / 0x10000) % 0x100) as u8);
    out.push(((x / 0x1000000) % 0x100) as u8);
    proof {
        assert(final(out)@ =~= old(out)@ + u32_to_le(x));
    }
}

/// Appends the eight little-endian bytes of `x` to `out`.
pub fn push_u64_le(out: &mut Vec<u8>, x: u64)
    ensures
        final(out)@ == old(out)@ + u64_to_le(x),
{
    out.push((x % 0x100) as u8);
    out.push(((x / 0x100) % 0x100) as u8);
    out.push(((x / 0x10000) % 0x100) as u8);
    out.push(((x / 0x1000000) % 0x100) as u8);
    out.push(((x / 0x100000000) % 0x100) as u8);
    out.push(((x / 0x10000000000) % 0x100) as u8);
    out.push(((x / 0x1000000000000) % 0x100) as u8);
    out.push(((x / 0x100000000000000) % 0x100) as u8);
    proof {
        assert(final(out)@ =~= old(out)@ + u64_to_le(x));
    }
}

/// Appends the four little-endian bytes of a signed value to `out`.
pub fn push_i32_le(out: &mut Vec<u8>, x: i32)
    ensures
        final(out)@ == old(out)@ + i32_to_le(x),
{
    let u: u32 = if x >= 0 {
        x as u32
    } else {
        0xFFFFFFFFu32 - ((-(x + 1)) as u32)
    };
    assert(u == u32_of_i32(x));
    push_u32_le(out, u);
}

/// Appends the eight little-endian bytes of a signed value to `out`.
pub fn push_i64_le(out: &mut Vec<u8>, x: i64)
    ensures
        final(out)@ == old(out)@ + i64_to_le(x),
{
    let u: u64 = if x >= 0 {
        x as u64
    } else {
        0xFFFFFFFFFFFFFFFFu64 - ((-(x + 1)) as u64)
    };
    assert(u == u64_of_i64(x));
    push_u64_le(out, u);
}

/// Reads the unsigned 32-bit value at offset `i` of `b`.
pub fn read_u32_le(b: &[u8], i: usize) -> (r: u32)
    requires
        i + 4 <= b@.len(),
    ensures
        r == u32_from_le(b@.subrange(i as int, i + 4)),
{
    let r = b[i] as u32 + (b[i + 1] as u32) * 0x100 + (b[i + 2] as u32) * 0x10000 + (b[i
        + 3] as u32) * 0x1000000;
    proof {
        let s = b@.subrange(i as int, i + 4);
        assert(s[0] == b@[i as int] && s[1] == b@[i + 1] && s[2] == b@[i + 2] && s[3] == b@[i + 3]);
    }
    r
}

/// Reads the unsigned 64-bit value at offset `i` of `b`.
pub fn read_u64_le(b: &[u8], i: usize) -> (r: u64)
    requires
        i + 8 <= b@.len(),
    ensures
        r == u64_from_le(b@.subrange(i as int, i + 8)),
{
    let r = b[i] as u64 + (b[i + 1] as u64) * 0x100 + (b[i + 2] as u64) * 0x10000 + (b[i
        + 3] as u64) * 0x1000000 + (b[i + 4] as u64) * 0x100000000 + (b[i + 5] as u64)
        * 0x10000000000 + (b[i + 6] as u64) * 0x1000000000000 + (b[i + 7] as u64)
        * 0x100000000000000;
    proof {
        let s = b@.subrange(i as int, i + 8);
        assert(s[0] == b@[i as int] && s[1] == b@[i + 1] && s[2] == b@[i + 2] && s[3] == b@[i + 3]
            && s[4] == b@[i + 4] && s[5] == b@[i + 5] && s[6] == b@[i + 6] && s[7] == b@[i + 7]);
    }
    r
}

/// Reads the signed 32-bit value at offset `i` of `b`.
pub fn read_i32_le(b: &[u8], i: usize) -> (r: i32)
    requires
        i + 4 <= b@.len(),
    ensures
        r == i32_from_le(b@.subrange(i as int, i + 4)),
{
    let n = read_u32_le(b, i);
    if n < 0x80000000 {
        n as i32
    } else {
        let d: u32 = n - 0x80000000;
        (d as i32) + (-0x7FFFFFFFi32 - 1)
    }
}

/// Reads the signed 64-bit value at offset `i` of `b`.
pub fn read_i64_le(b: &[u8], i: usize) -> (r: i64)
    requires
        i + 8 <= b@.len(),
    ensures
        r == i64_from_le(b@.subrange(i as int, i + 8)),
{
    let n = read_u64_le(b, i);
    if n < 0x8000000000000000 {
        n as i64
    } else {
        let d: u64 = n - 0x8000000000000000;
        (d as i64) + (-0x7FFFFFFFFFFFFFFFi64 - 1)
    }
}

} // verus!
