//! The flat address space as a mathematical object: a sequence of 65,536
//! bytes, read and written one byte or one little-endian word at a time.
use vstd::prelude::*;

verus! {

/// Number of addressable bytes: every `u16` is a valid address.
pub const MEM_SIZE: usize = 0x10000;

/// The address after `addr`, wrapping from 0xFFFF to 0x0000.
pub open spec fn next_addr(addr: u16) -> u16 {
    ((addr + 1) % 0x10000) as u16
}

/// The little-endian word whose low byte is at `addr` and whose high byte
/// is at the following address (wrapping at the top of memory).
pub open spec fn word_at(mem: Seq<u8>, addr: u16) -> u16 {
    (mem[addr as int] + 256 * mem[next_addr(addr) as int]) as u16
}

/// The memory after storing `w` little-endian at `addr`: low byte at `addr`,
/// high byte at the following address (wrapping at the top of memory).
pub open spec fn with_word(mem: Seq<u8>, addr: u16, w: u16) -> Seq<u8> {
    mem.update(addr as int, (w % 256) as u8).update(next_addr(addr) as int, (w / 256) as u8)
}

/// Writing a word and reading it back at the same address gives the word,
/// at every address, the last one (whose high byte wraps to 0x0000) included.
pub proof fn lemma_word_round_trip(mem: Seq<u8>, addr: u16, w: u16)
    requires
        mem.len() == MEM_SIZE,
    ensures
        word_at(with_word(mem, addr, w), addr) == w,
{
    let m = with_word(mem, addr, w);
    assert(next_addr(addr) != addr);
    assert(m[addr as int] == (w % 256) as u8);
    assert(m[next_addr(addr) as int] == (w / 256) as u8);
}

} // verus!
