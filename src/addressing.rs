//! Addressing modes and the effective address each one selects.
use vstd::prelude::*;
use crate::memory::word_at;
use crate::state::{CpuState, pc_plus};

verus! {

/// How an instruction finds the memory location it operates on.
#[derive(Debug, Clone, Copy, PartialEq, Eq, Structural)]
#[allow(non_camel_case_types)]
pub enum AddressingMode {
    Immediate,
    ZeroPage,
    ZeroPage_X,
    ZeroPage_Y,
    Absolute,
    Absolute_X,
    Absolute_Y,
    Indirect_X,
    Indirect_Y,
    NoneAddressing,
}

/// The little-endian word stored in the zero page at `ptr`, its high byte
/// taken from `ptr + 1` wrapping within the zero page.
pub open spec fn zero_page_word(mem: Seq<u8>, ptr: u8) -> u16 {
    (mem[ptr as int] + 256 * mem[(ptr + 1) % 256]) as u16
}

/// The number of operand bytes that follow the opcode in `mode`.
pub open spec fn operand_len(mode: AddressingMode) -> nat {
    match mode {
        AddressingMode::Absolute | AddressingMode::Absolute_X | AddressingMode::Absolute_Y => 2,
        AddressingMode::NoneAddressing => 0,
        _ => 1,
    }
}

/// The effective address that `mode` selects in state `s`, whose program
/// counter points at the first operand byte; `None` for `NoneAddressing`,
/// which selects no address.
pub open spec fn effective_address(mode: AddressingMode, s: CpuState) -> Option<u16> {
    let operand = s.mem[s.pc as int];
    let word = word_at(s.mem, s.pc);
    match mode {
        AddressingMode::Immediate => Some(s.pc),
        AddressingMode::ZeroPage => Some(operand as u16),
        AddressingMode::ZeroPage_X => Some(((operand + s.x) % 256) as u16),
        AddressingMode::ZeroPage_Y => Some(((operand + s.y) % 256) as u16),
        AddressingMode::Absolute => Some(word),
        AddressingMode::Absolute_X => Some(((word + s.x) % 0x10000) as u16),
        AddressingMode::Absolute_Y => Some(((word + s.y) % 0x10000) as u16),
        AddressingMode::Indirect_X => Some(zero_page_word(s.mem, ((operand + s.x) % 256) as u8)),
        AddressingMode::Indirect_Y => Some(
            ((zero_page_word(s.mem, operand) + s.y) % 0x10000) as u16,
        ),
        AddressingMode::NoneAddressing => None,
    }
}

/// The program counter once the operand bytes of `mode` have been consumed.
pub open spec fn pc_after_operand(mode: AddressingMode, s: CpuState) -> u16 {
    pc_plus(s.pc, operand_len(mode))
}

} // verus!
