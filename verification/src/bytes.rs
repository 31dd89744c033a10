//! Little-endian fields and checksums over byte sequences.
//!
//! Every multi-byte field of the firmware storage formats is stored least
//! significant byte first. The spec functions give the value of a field at an
//! offset of a byte sequence; the executable readers compute it from a slice.

use vstd::prelude::*;

verus! {

/// The 16-bit field at `off`.
pub open spec fn le_u16(s: Seq<u8>, off: int) -> int {
    s[off] as int + 0x100 * (s[off + 1] as int)
}

/// The 24-bit field at `off`.
pub open spec fn le_u24(s: Seq<u8>, off: int) -> int {
    s[off] as int + 0x100 * (s[off + 1] as int) + 0x1_0000 * (s[off + 2] as int)
}

/// The 32-bit field at `off`.
pub open spec fn le_u32(s: Seq<u8>, off: int) -> int {
    le_u16(s, off) + 0x1_0000 * le_u16(s, off + 2)
}

/// The 64-bit field at `off`.
pub open spec fn le_u64(s: Seq<u8>, off: int) -> int {
    le_u32(s, off) + 0x1_0000_0000 * le_u32(s, off + 4)
}

/// The 128-bit field at `off`.
pub open spec fn le_u128(s: Seq<u8>, off: int) -> int {
    le_u64(s, off) + 0x1_0000_0000_0000_0000 * le_u64(s, off + 8)
}

/// The sum of the `n` bytes that start at `off`.
pub open spec fn byte_sum(s: Seq<u8>, off: int, n: int) -> int
    decreases n,
{
    if n <= 0 {
        0
    } else {
        byte_sum(s, off, n - 1) + s[off + n - 1] as int
    }
}

/// The sum of the `n` 16-bit words that start at `off`.
pub open spec fn word_sum(s: Seq<u8>, off: int, n: int) -> int
    decreases n,
{
    if n <= 0 {
        0
    } else {
        word_sum(s, off, n - 1) + le_u16(s, off + 2 * (n - 1))
    }
}

/// Each of the `n` bytes that start at `off` equals `value`.
pub open spec fn all_bytes_are(s: Seq<u8>, off: int, n: int, value: u8) -> bool {
    forall|i: int| off <= i < off + n ==> s[i] == value
}

/// Reads the 16-bit field at `off`.
pub fn read_u16(buf: &[u8], off: usize) -> (r: u16)
    requires
        off + 2 <= buf.len(),
    ensures
        r == le_u16(buf@, off as int),
{
    let b0: u16 = buf[off] as u16;
    let b1: u16 = buf[off + 1] as u16;
    b0 + b1 * 0x100
}

/// Reads the 24-bit field at `off`.
pub fn read_u24(buf: &[u8], off: usize) -> (r: u32)
    requires
        off + 3 <= buf.len(),
    ensures
        r == le_u24(buf@, off as int),
        r < 0x100_0000,
{
    let b0: u32 = buf[off] as u32;
    let b1: u32 = buf[off + 1] as u32;
    let b2: u32 = buf[off + 2] as u32;
    b0 + b1 * 0x100 + b2 * 0x1_0000
}

/// Reads the 32-bit field at `off`.
pub fn read_u32(buf: &[u8], off: usize) -> (r: u32)
    requires
        off + 4 <= buf.len(),
    ensures
        r == le_u32(buf@, off as int),
{
    let lo: u32 = read_u16(buf, off) as u32;
    let hi: u32 = read_u16(buf, off + 2) as u32;
    lo + hi * 0x1_0000
}

/// Reads the 64-bit field at `off`.
pub fn read_u64(buf: &[u8], off: usize) -> (r: u64)
    requires
        off + 8 <= buf.len(),
    ensures
        r == le_u64(buf@, off as int),
{
    let lo: u64 = read_u32(buf, off) as u64;
    let hi: u64 = read_u32(buf, off + 4) as u64;
    lo + hi * 0x1_0000_0000
}

/// Reads the 128-bit field at `off`.
pub fn read_u128(buf: &[u8], off: usize) -> (r: u128)
    requires
        off + 16 <= buf.len(),
    ensures
        r == le_u128(buf@, off as int),
{
    let lo: u128 = read_u64(buf, off) as u128;
    let hi: u128 = read_u64(buf, off + 8) as u128;
    lo + hi * 0x1_0000_0000_0000_0000
}

/// Adds up the bytes of `buf[off..off + n]` modulo 256.
pub fn sum_bytes(buf: &[u8], off: usize, n: usize) -> (r: u8)
    requires
        off + n <= buf.len(),
    ensures
        r == byte_sum(buf@, off as int, n as int) % 256,
{
    let mut sum: u8 = 0;
    let mut i: usize = 0;
    while i < n
        invariant
            i <= n,
            off + n <= buf.len(),
            sum == byte_sum(buf@, off as int, i as int) % 256,
        decreases n - i,
    {
        sum = sum.wrapping_add(buf[off + i]);
        i = i + 1;
    }
    sum
}

/// Adds up the `n` 16-bit words of `buf[off..off + 2 * n]` modulo 65536.
pub fn sum_words(buf: &[u8], off: usize, n: usize) -> (r: u16)
    requires
        off + 2 * n <= buf.len(),
    ensures
        r == word_sum(buf@, off as int, n as int) % 0x1_0000,
{
    let mut sum: u16 = 0;
    let mut i: usize = 0;
    while i < n
        invariant
            i <= n,
            off + 2 * n <= buf.len(),
            sum == word_sum(buf@, off as int, i as int) % 0x1_0000,
        decreases n - i,
    {
        sum = sum.wrapping_add(read_u16(buf, off + 2 * i));
        i = i + 1;
    }
    sum
}

/// Tells whether each byte of `buf[off..off + n]` equals `value`.
pub fn bytes_all_equal(buf: &[u8], off: usize, n: usize, value: u8) -> (r: bool)
    requires
        off + n <= buf.len(),
    ensures
        r == all_bytes_are(buf@, off as int, n as int, value),
{
    let mut i: usize = 0;
    while i < n
        invariant
            i <= n,
            off + n <= buf.len(),
            all_bytes_are(buf@, off as int, i as int, value),
        decreases n - i,
    {
        if buf[off + i] != value {
            return false;
        }
        i = i + 1;
    }
    true
}

} // verus!
