//! Integer reads out of raw, fixed-layout kernel records.
//!
//! All multi-byte fields of the kernel records are host-order (little-endian
//! on the supported targets) except the two port fields, which the kernel
//! stores in network byte order (big-endian).

use vstd::prelude::*;

verus! {

/// The value of four bytes of `b` at `off`, least significant byte first.
pub open spec fn le32(b: Seq<u8>, off: int) -> u32 {
    (b[off] + b[off + 1] * 0x100 + b[off + 2] * 0x1_0000 + b[off + 3] * 0x100_0000) as u32
}

/// The value of eight bytes of `b` at `off`, least significant byte first.
pub open spec fn le64(b: Seq<u8>, off: int) -> u64 {
    (b[off] + b[off + 1] * 0x100 + b[off + 2] * 0x1_0000 + b[off + 3] * 0x100_0000
        + b[off + 4] * 0x1_0000_0000 + b[off + 5] * 0x100_0000_0000
        + b[off + 6] * 0x1_0000_0000_0000 + b[off + 7] * 0x100_0000_0000_0000) as u64
}

/// Four bytes at `off` read as a host-order signed 32-bit value.
pub open spec fn le_i32(b: Seq<u8>, off: int) -> i32 {
    le32(b, off) as i32
}

/// The value of two bytes of `b` at `off`, most significant byte first
/// (network byte order).
pub open spec fn be16(b: Seq<u8>, off: int) -> u16 {
    (b[off] * 0x100 + b[off + 1]) as u16
}

pub fn read_le32(b: &[u8], off: usize) -> (r: u32)
    requires
        off + 4 <= b@.len(),
    ensures
        r == le32(b@, off as int),
{
    let b0 = b[off] as u32;
    let b1 = b[off + 1] as u32;
    let b2 = b[off + 2] as u32;
    let b3 = b[off + 3] as u32;
    b0 + b1 * 0x100 + b2 * 0x1_0000 + b3 * 0x100_0000
}

pub fn read_le64(b: &[u8], off: usize) -> (r: u64)
    requires
        off + 8 <= b@.len(),
    ensures
        r == le64(b@, off as int),
{
    let b0 = b[off] as u64;
    let b1 = b[off + 1] as u64;
    let b2 = b[off + 2] as u64;
    let b3 = b[off + 3] as u64;
    let b4 = b[off + 4] as u64;
    let b5 = b[off + 5] as u64;
    let b6 = b[off + 6] as u64;
    let b7 = b[off + 7] as u64;
    b0 + b1 * 0x100 + b2 * 0x1_0000 + b3 * 0x100_0000 + b4 * 0x1_0000_0000
        + b5 * 0x100_0000_0000 + b6 * 0x1_0000_0000_0000 + b7 * 0x100_0000_0000_0000
}

pub fn read_le_i32(b: &[u8], off: usize) -> (r: i32)
    requires
        off + 4 <= b@.len(),
    ensures
        r == le_i32(b@, off as int),
{
    let x = read_le32(b, off);
    #[verifier::truncate] (x as i32)
}

pub fn read_be16(b: &[u8], off: usize) -> (r: u16)
    requires
        off + 2 <= b@.len(),
    ensures
        r == be16(b@, off as int),
{
    let hi = b[off] as u16;
    let lo = b[off + 1] as u16;
    hi * 0x100 + lo
}

/// Byte-order round trip: a port split into its network-order byte pair and
/// read back in network order is unchanged.
pub proof fn lemma_port_byte_order_round_trip(port: u16)
    ensures
        be16(seq![(port / 0x100) as u8, (port % 0x100) as u8], 0) == port,
{
    assert(port / 0x100 < 0x100);
    assert((port / 0x100) * 0x100 + port % 0x100 == port) by (nonlinear_arith);
}

} // verus!
