//! Little-endian field helpers shared by the wire and protocol modules.

use vstd::prelude::*;

verus! {

/// A little-endian `u16` from its two bytes.
pub open spec fn le_u16(lo: u8, hi: u8) -> u16 {
    (lo as int + hi as int * 256) as u16
}

/// A little-endian `u32` from its four bytes.
pub open spec fn le_u32(b0: u8, b1: u8, b2: u8, b3: u8) -> u32 {
    (b0 as int + b1 as int * 256 + b2 as int * 65536 + b3 as int * 16777216) as u32
}

/// Low byte of a `u16`.
pub open spec fn lo_byte(value: u16) -> u8 {
    (value % 256) as u8
}

/// High byte of a `u16`.
pub open spec fn hi_byte(value: u16) -> u8 {
    (value / 256) as u8
}

pub fn read_le_u16(lo: u8, hi: u8) -> (res: u16)
    ensures
        res == le_u16(lo, hi),
        res as int == lo as int + hi as int * 256,
{
    lo as u16 + (hi as u16) * 256
}

pub fn read_le_u32(b0: u8, b1: u8, b2: u8, b3: u8) -> (res: u32)
    ensures
        res == le_u32(b0, b1, b2, b3),
        res as int == b0 as int + b1 as int * 256 + b2 as int * 65536 + b3 as int * 16777216,
{
    b0 as u32 + (b1 as u32) * 256 + (b2 as u32) * 65536 + (b3 as u32) * 16777216
}

/// Copies `buf[from..to]` into a new vector.
pub fn copy_range(buf: &[u8], from: usize, to: usize) -> (res: Vec<u8>)
    requires
        from <= to <= buf@.len(),
    ensures
        res@ == buf@.subrange(from as int, to as int),
{
    let mut out: Vec<u8> = Vec::new();
    let mut i = from;
    while i < to
        invariant
            from <= i <= to,
            to <= buf@.len(),
            out@ == buf@.subrange(from as int, i as int),
        decreases to - i,
    {
        out.push(buf[i]);
        i = i + 1;
        assert(out@ =~= buf@.subrange(from as int, i as int));
    }
    out
}

/// Splitting a `u16` into bytes and reading them back is the identity.
pub proof fn lemma_u16_bytes(value: u16)
    ensures
        le_u16(lo_byte(value), hi_byte(value)) == value,
{
}

} // verus!
