//! The processor's state as a mathematical value, and the status flags.
use vstd::prelude::*;

verus! {

/// Mask of the Zero flag in the status register.
pub const ZERO_FLAG: u8 = 0b0000_0010;

/// Mask of the Negative flag in the status register.
pub const NEGATIVE_FLAG: u8 = 0b1000_0000;

/// Everything an instruction can read or change: the registers and memory.
pub struct CpuState {
    pub a: u8,
    pub x: u8,
    pub y: u8,
    pub p: u8,
    pub pc: u16,
    pub mem: Seq<u8>,
}

/// The Zero flag of a status register value.
pub open spec fn zero_flag(p: u8) -> bool {
    p & ZERO_FLAG != 0
}

/// The Negative flag of a status register value.
pub open spec fn negative_flag(p: u8) -> bool {
    p & NEGATIVE_FLAG != 0
}

/// Mask of the status bits that no operation of this core changes.
pub const OTHER_FLAGS: u8 = 0b0111_1101;

/// The status register after an operation produced `result`: Zero set iff
/// the result is 0, Negative set iff its bit 7 is 1, every other bit kept.
pub open spec fn with_zn(p: u8, result: u8) -> u8 {
    let z: u8 = if result == 0 { ZERO_FLAG } else { 0 };
    let n: u8 = if result & 0x80 != 0 { NEGATIVE_FLAG } else { 0 };
    (p & OTHER_FLAGS) | z | n
}

/// What `with_zn` means bit by bit.
pub proof fn lemma_with_zn(p: u8, result: u8)
    ensures
        zero_flag(with_zn(p, result)) == (result == 0),
        negative_flag(with_zn(p, result)) == (result >= 0x80),
        with_zn(p, result) & OTHER_FLAGS == p & OTHER_FLAGS,
{
    assert(zero_flag(with_zn(p, result)) == (result == 0)) by (bit_vector);
    assert(negative_flag(with_zn(p, result)) == (result >= 0x80)) by (bit_vector);
    assert(with_zn(p, result) & OTHER_FLAGS == p & OTHER_FLAGS) by (bit_vector);
}

/// `v` plus one, wrapping from 255 to 0.
pub open spec fn inc8(v: u8) -> u8 {
    if v == 255 { 0 } else { (v + 1) as u8 }
}

/// `v` minus one, wrapping from 0 to 255.
pub open spec fn dec8(v: u8) -> u8 {
    if v == 0 { 255 } else { (v - 1) as u8 }
}

/// `pc` advanced by `n` bytes, wrapping at the top of memory.
pub open spec fn pc_plus(pc: u16, n: nat) -> u16 {
    ((pc + n) % 0x10000) as u16
}

} // verus!
