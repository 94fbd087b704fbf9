//! Fixed-width little-endian integers, read from and written to bytes.
use vstd::prelude::*;

verus! {

/// The unsigned value of the four bytes of `b` that start at `at`, least
/// significant first.
pub open spec fn le_u32_value(b: Seq<u8>, at: int) -> int {
    b[at] + 256 * b[at + 1] + 65536 * b[at + 2] + 16777216 * b[at + 3]
}

/// The signed 32-bit value whose two's-complement bit pattern is `n`.
pub open spec fn twos_complement_32(n: int) -> int {
    if n >= 0x8000_0000 {
        n - 0x1_0000_0000
    } else {
        n
    }
}

/// The four bytes of `n`, least significant first.
pub open spec fn le_bytes_u32(n: u32) -> Seq<u8> {
    seq![
        (n % 256) as u8,
        ((n / 256) % 256) as u8,
        ((n / 65536) % 256) as u8,
        (n / 16777216) as u8,
    ]
}

/// The bit pattern of `v` in two's complement, as an unsigned value.
pub open spec fn bit_pattern_32(v: i32) -> u32 {
    if v < 0 {
        (v + 0x1_0000_0000) as u32
    } else {
        v as u32
    }
}

/// The four bytes of `v` in two's complement, least significant first.
pub open spec fn le_bytes_i32(v: i32) -> Seq<u8> {
    le_bytes_u32(bit_pattern_32(v))
}

/// Reads an unsigned 32-bit integer stored little-endian at `at`.
pub fn read_u32_le(b: &[u8], at: usize) -> (r: u32)
    requires
        at + 4 <= b@.len(),
    ensures
        r == le_u32_value(b@, at as int),
{
    let b0 = b[at] as u32;
    let b1 = b[at + 1] as u32;
    let b2 = b[at + 2] as u32;
    let b3 = b[at + 3] as u32;
    b0 + 256 * b1 + 65536 * b2 + 16777216 * b3
}

/// Reads a signed 32-bit integer stored little-endian in two's complement at
/// `at`.
pub fn read_i32_le(b: &[u8], at: usize) -> (r: i32)
    requires
        at + 4 <= b@.len(),
    ensures
        r == twos_complement_32(le_u32_value(b@, at as int)),
{
    let u = read_u32_le(b, at);
    if u >= 0x8000_0000 {
        (u as i64 - 0x1_0000_0000i64) as i32
    } else {
        u as i32
    }
}

/// The little-endian bytes of `n`.
pub fn u32_le_bytes(n: u32) -> (r: Vec<u8>)
    ensures
        r@ == le_bytes_u32(n),
{
    let v = vec![
        (n % 256) as u8,
        ((n / 256) % 256) as u8,
        ((n / 65536) % 256) as u8,
        (n / 16777216) as u8,
    ];
    assert(v@ =~= le_bytes_u32(n));
    v
}

/// The little-endian two's-complement bytes of `v`.
pub fn i32_le_bytes(v: i32) -> (r: Vec<u8>)
    ensures
        r@ == le_bytes_i32(v),
{
    let n: u32 = if v < 0 {
        (v as i64 + 0x1_0000_0000i64) as u32
    } else {
        v as u32
    };
    u32_le_bytes(n)
}

} // verus!
