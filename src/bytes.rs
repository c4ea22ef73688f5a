//! Little-endian field extraction from configuration-space bytes and dwords.

use vstd::prelude::*;

verus! {

/// Byte `k` (0 = least significant) of the dword `d`.
pub open spec fn dword_byte(d: u32, k: int) -> u8 {
    if k == 0 {
        (d % 0x100) as u8
    } else if k == 1 {
        ((d / 0x100) % 0x100) as u8
    } else if k == 2 {
        ((d / 0x1_0000) % 0x100) as u8
    } else {
        (d / 0x100_0000) as u8
    }
}

/// The four bytes of `d`, least significant first.
pub open spec fn dword_bytes(d: u32) -> Seq<u8> {
    seq![dword_byte(d, 0), dword_byte(d, 1), dword_byte(d, 2), dword_byte(d, 3)]
}

/// The little-endian 16-bit value stored at `b[o..o + 2]`.
pub open spec fn le16(b: Seq<u8>, o: int) -> u16 {
    (b[o] as int + 0x100 * b[o + 1] as int) as u16
}

/// The little-endian 32-bit value stored at `b[o..o + 4]`.
pub open spec fn le32(b: Seq<u8>, o: int) -> u32 {
    (b[o] as int + 0x100 * b[o + 1] as int + 0x1_0000 * b[o + 2] as int + 0x100_0000
        * b[o + 3] as int) as u32
}

/// Reads the little-endian 16-bit value at `bytes[o..o + 2]`.
pub fn read_u16(bytes: &[u8], o: usize) -> (r: u16)
    requires
        o + 2 <= bytes@.len(),
    ensures
        r == le16(bytes@, o as int),
{
    bytes[o] as u16 + 0x100 * (bytes[o + 1] as u16)
}

/// Reads the little-endian 32-bit value at `bytes[o..o + 4]`.
pub fn read_u32(bytes: &[u8], o: usize) -> (r: u32)
    requires
        o + 4 <= bytes@.len(),
    ensures
        r == le32(bytes@, o as int),
{
    bytes[o] as u32 + 0x100 * (bytes[o + 1] as u32) + 0x1_0000 * (bytes[o + 2] as u32)
        + 0x100_0000 * (bytes[o + 3] as u32)
}

/// Byte `k` of the dword `d`, extracted by shifting and masking.
pub fn byte_of_dword(d: u32, k: u8) -> (r: u8)
    requires
        k < 4,
    ensures
        r == dword_byte(d, k as int),
{
    let shifted: u32 = if k == 0 {
        d
    } else if k == 1 {
        d >> 8u32
    } else if k == 2 {
        d >> 16u32
    } else {
        d >> 24u32
    };
    let r = (shifted & 0xffu32) as u8;
    proof {
        assert(d & 0xffu32 == d % 0x100) by (bit_vector);
        assert((d >> 8u32) & 0xffu32 == (d / 0x100) % 0x100) by (bit_vector);
        assert((d >> 16u32) & 0xffu32 == (d / 0x1_0000) % 0x100) by (bit_vector);
        assert((d >> 24u32) & 0xffu32 == d / 0x100_0000) by (bit_vector);
    }
    r
}

} // verus!
