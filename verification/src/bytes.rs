//! Big-endian integers inside byte strings.

use vstd::prelude::*;

verus! {

/// The unsigned 16-bit integer stored big-endian at `s[at]`, `s[at + 1]`.
pub open spec fn be_u16(s: Seq<u8>, at: int) -> u16 {
    ((s[at] as int) * 0x100 + (s[at + 1] as int)) as u16
}

/// The unsigned 32-bit integer stored big-endian at `s[at] .. s[at + 3]`.
pub open spec fn be_u32(s: Seq<u8>, at: int) -> u32 {
    ((s[at] as int) * 0x100_0000 + (s[at + 1] as int) * 0x1_0000 + (s[at + 2] as int) * 0x100
        + (s[at + 3] as int)) as u32
}

/// Reads the big-endian `u16` at offset `at`.
pub fn read_be_u16(s: &[u8], at: usize) -> (r: u16)
    requires
        at + 2 <= s@.len(),
    ensures
        r == be_u16(s@, at as int),
{
    let hi: u16 = s[at] as u16;
    let lo: u16 = s[at + 1] as u16;
    hi * 0x100 + lo
}

/// Reads the big-endian `u32` at offset `at`.
pub fn read_be_u32(s: &[u8], at: usize) -> (r: u32)
    requires
        at + 4 <= s@.len(),
    ensures
        r == be_u32(s@, at as int),
{
    let b0: u32 = s[at] as u32;
    let b1: u32 = s[at + 1] as u32;
    let b2: u32 = s[at + 2] as u32;
    let b3: u32 = s[at + 3] as u32;
    b0 * 0x100_0000 + b1 * 0x1_0000 + b2 * 0x100 + b3
}

} // verus!
