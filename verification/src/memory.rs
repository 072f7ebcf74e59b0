//! The address space as a mathematical object: a sequence of 65536 bytes,
//! read and written one byte or one little-endian word at a time.
//!
//! A word at `addr` has its low byte at `addr` and its high byte at the next
//! address. Addresses are 16-bit and wrap: the address after `0xFFFF` is
//! `0x0000`, so a word may straddle the top of the address space.

use vstd::prelude::*;

verus! {

/// The number of bytes in the address space.
pub const MEMORY_SIZE: usize = 0x10000;

/// Where `load` puts the first byte of a program image.
pub const PROGRAM_BASE: u16 = 0x8000;

/// The address of the reset vector: the word that holds the address at which
/// execution starts after a reset.
pub const RESET_VECTOR: u16 = 0xFFFC;

/// The 16-bit word with low byte `lo` and high byte `hi`.
pub open spec fn word(lo: u8, hi: u8) -> u16 {
    (lo + 256 * hi) as u16
}

/// The low byte of `w`.
pub open spec fn low_byte(w: u16) -> u8 {
    (w % 256) as u8
}

/// The high byte of `w`.
pub open spec fn high_byte(w: u16) -> u8 {
    (w / 256) as u8
}

/// The address that follows `addr` in the 16-bit address space.
pub open spec fn next_address(addr: u16) -> u16 {
    ((addr + 1) % 0x10000) as u16
}

/// The zero-page location that follows `ptr`; it wraps within page zero.
pub open spec fn next_in_zero_page(ptr: u8) -> u8 {
    ((ptr + 1) % 256) as u8
}

/// The little-endian word stored at `addr`.
pub open spec fn read_u16(mem: Seq<u8>, addr: u16) -> u16 {
    word(mem[addr as int], mem[next_address(addr) as int])
}

/// The little-endian word stored at the zero-page location `ptr`, both of
/// whose bytes lie in page zero.
pub open spec fn read_zero_page_u16(mem: Seq<u8>, ptr: u8) -> u16 {
    word(mem[ptr as int], mem[next_in_zero_page(ptr) as int])
}

/// `mem` after the little-endian word `data` has been stored at `addr`.
pub open spec fn write_u16(mem: Seq<u8>, addr: u16, data: u16) -> Seq<u8> {
    mem.update(addr as int, low_byte(data)).update(next_address(addr) as int, high_byte(data))
}

/// A word is made of its own two bytes.
pub proof fn lemma_word_of_bytes(w: u16)
    ensures
        word(low_byte(w), high_byte(w)) == w,
{
}

/// Shifting the high byte up and or-ing the low byte in makes the word.
pub proof fn lemma_word_is_shift_or(lo: u8, hi: u8)
    ensures
        (hi as u16) << 8 | (lo as u16) == word(lo, hi),
{
    assert((hi as u16) << 8 | (lo as u16) == (lo as u16) + 256 * (hi as u16)) by (bit_vector);
}

/// Shifting a word down gives its high byte, masking it its low byte.
pub proof fn lemma_bytes_are_shift_and_mask(w: u16)
    ensures
        ((w >> 8) as u8) == high_byte(w),
        ((w & 0xff) as u8) == low_byte(w),
{
    assert(w >> 8 == w / 256 && w & 0xff == w % 256) by (bit_vector);
}

/// A word that was written is the word that is read back, at every
/// address of a full address space, the last one included.
pub proof fn lemma_write_then_read_u16(mem: Seq<u8>, addr: u16, data: u16)
    requires
        mem.len() == MEMORY_SIZE,
    ensures
        read_u16(write_u16(mem, addr, data), addr) == data,
        write_u16(mem, addr, data).len() == MEMORY_SIZE,
{
    lemma_word_of_bytes(data);
}

} // verus!
