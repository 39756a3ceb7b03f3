//! Little-endian integers in byte sequences.

use vstd::prelude::*;

verus! {

/// The 16-bit number whose least significant byte is `s[at]`.
pub open spec fn le_u16_at(s: Seq<u8>, at: int) -> int {
    s[at] as int + 0x100 * (s[at + 1] as int)
}

/// The 32-bit number whose least significant byte is `s[at]`.
pub open spec fn le_u32_at(s: Seq<u8>, at: int) -> int {
    le_u16_at(s, at) + 0x1_0000 * le_u16_at(s, at + 2)
}

/// The 64-bit number whose least significant byte is `s[at]`.
pub open spec fn le_u64_at(s: Seq<u8>, at: int) -> int {
    le_u32_at(s, at) + 0x1_0000_0000 * le_u32_at(s, at + 4)
}

/// The four bytes that spell `v`, least significant first.
pub open spec fn le_bytes_of_u32(v: u32) -> Seq<u8> {
    seq![
        (v as int % 0x100) as u8,
        (v as int / 0x100 % 0x100) as u8,
        (v as int / 0x1_0000 % 0x100) as u8,
        (v as int / 0x100_0000 % 0x100) as u8,
    ]
}

/// Reads the 16-bit number at `at`.
pub fn u16_from_le(b: &[u8], at: usize) -> (v: u16)
    requires
        at + 2 <= b@.len(),
    ensures
        v == le_u16_at(b@, at as int),
{
    let lo: u16 = b[at] as u16;
    let hi: u16 = b[at + 1] as u16;
    lo + hi * 0x100
}

/// Reads the 32-bit number at `at`.
pub fn u32_from_le(b: &[u8], at: usize) -> (v: u32)
    requires
        at + 4 <= b@.len(),
    ensures
        v == le_u32_at(b@, at as int),
{
    let len: usize = b.len();
    assert(at + 4 <= len);
    let lo: u32 = u16_from_le(b, at) as u32;
    let hi: u32 = u16_from_le(b, at + 2) as u32;
    lo + hi * 0x1_0000
}

/// Reads the 64-bit number at `at`.
pub fn u64_from_le(b: &[u8], at: usize) -> (v: u64)
    requires
        at + 8 <= b@.len(),
    ensures
        v == le_u64_at(b@, at as int),
{
    let len: usize = b.len();
    assert(at + 8 <= len);
    let lo: u64 = u32_from_le(b, at) as u64;
    let hi: u64 = u32_from_le(b, at + 4) as u64;
    lo + hi * 0x1_0000_0000
}

/// Spells `v` as four bytes, least significant first.
pub fn u32_to_le(v: u32) -> (b: Vec<u8>)
    ensures
        b@ == le_bytes_of_u32(v),
{
    let mut b: Vec<u8> = Vec::with_capacity(4);
    b.push((v % 0x100) as u8);
    b.push((v / 0x100 % 0x100) as u8);
    b.push((v / 0x1_0000 % 0x100) as u8);
    b.push((v / 0x100_0000 % 0x100) as u8);
    assert(b@ =~= le_bytes_of_u32(v));
    b
}

/// Reading back the bytes that spell a number gives that number.
pub proof fn lemma_le_u32_of_bytes(v: u32)
    ensures
        le_bytes_of_u32(v).len() == 4,
        le_u32_at(le_bytes_of_u32(v), 0) == v,
{
}

/// Spelling the number that four bytes hold gives those four bytes.
pub proof fn lemma_le_bytes_of_u32(s: Seq<u8>, at: int)
    requires
        0 <= at,
        at + 4 <= s.len(),
    ensures
        0 <= le_u32_at(s, at) <= u32::MAX,
        le_bytes_of_u32(le_u32_at(s, at) as u32) == s.subrange(at, at + 4),
{
    assert(le_bytes_of_u32(le_u32_at(s, at) as u32) =~= s.subrange(at, at + 4));
}

} // verus!
