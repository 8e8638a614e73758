//! The opcode table: which operation, in which addressing mode, each opcode
//! byte stands for.
use vstd::prelude::*;
use crate::addressing::AddressingMode;

verus! {

/// A decoded instruction: its handler and, for handlers that take an
/// operand, its addressing mode.
#[derive(Debug, Clone, Copy, PartialEq, Eq, Structural)]
pub enum Operation {
    /// Copy A into X.
    Tax,
    /// Copy X into A.
    Txa,
    /// Decrement X.
    Dex,
    /// Increment X.
    Inx,
    /// Copy A into Y.
    Tay,
    /// Copy Y into A.
    Tya,
    /// Decrement Y.
    Dey,
    /// Increment Y.
    Iny,
    /// Load A from memory.
    Lda(AddressingMode),
    /// Store A to memory.
    Sta(AddressingMode),
    /// Load A with the memory value shifted left by one bit.
    Rol(AddressingMode),
    /// Load A with the memory value shifted right by one bit.
    Ror(AddressingMode),
    /// Halt.
    Brk,
}

/// The operation that `opcode` stands for, or `None` for a byte outside
/// the table.
pub open spec fn opcode_table(opcode: u8) -> Option<Operation> {
    match opcode {
        0xAA => Some(Operation::Tax),
        0x8A => Some(Operation::Txa),
        0xCA => Some(Operation::Dex),
        0xE8 => Some(Operation::Inx),
        0xA8 => Some(Operation::Tay),
        0x98 => Some(Operation::Tya),
        0x88 => Some(Operation::Dey),
        0xC8 => Some(Operation::Iny),
        0xA9 => Some(Operation::Lda(AddressingMode::Immediate)),
        0xA5 => Some(Operation::Lda(AddressingMode::ZeroPage)),
        0xB5 => Some(Operation::Lda(AddressingMode::ZeroPage_X)),
        0xAD => Some(Operation::Lda(AddressingMode::Absolute)),
        0xBD => Some(Operation::Lda(AddressingMode::Absolute_X)),
        0xB9 => Some(Operation::Lda(AddressingMode::Absolute_Y)),
        0xA1 => Some(Operation::Lda(AddressingMode::Indirect_X)),
        0xB1 => Some(Operation::Lda(AddressingMode::Indirect_Y)),
        0x85 => Some(Operation::Sta(AddressingMode::ZeroPage)),
        0x95 => Some(Operation::Sta(AddressingMode::ZeroPage_X)),
        0x8D => Some(Operation::Sta(AddressingMode::Absolute)),
        0x9D => Some(Operation::Sta(AddressingMode::Absolute_X)),
        0x99 => Some(Operation::Sta(AddressingMode::Absolute_Y)),
        0x81 => Some(Operation::Sta(AddressingMode::Indirect_X)),
        0x91 => Some(Operation::Sta(AddressingMode::Indirect_Y)),
        0x2A => Some(Operation::Rol(AddressingMode::Immediate)),
        0x26 => Some(Operation::Rol(AddressingMode::ZeroPage)),
        0x36 => Some(Operation::Rol(AddressingMode::ZeroPage_X)),
        0x2E => Some(Operation::Rol(AddressingMode::Absolute)),
        0x3E => Some(Operation::Rol(AddressingMode::Absolute_X)),
        0x6A => Some(Operation::Ror(AddressingMode::Immediate)),
        0x66 => Some(Operation::Ror(AddressingMode::ZeroPage)),
        0x76 => Some(Operation::Ror(AddressingMode::ZeroPage_X)),
        0x6E => Some(Operation::Ror(AddressingMode::Absolute)),
        0x7E => Some(Operation::Ror(AddressingMode::Absolute_X)),
        0x00 => Some(Operation::Brk),
        _ => None,
    }
}

/// Decodes one opcode byte.
pub fn decode(opcode: u8) -> (r: Option<Operation>)
    ensures
        r == opcode_table(opcode),
{
    match opcode {
        0xAA => Some(Operation::Tax),
        0x8A => Some(Operation::Txa),
        0xCA => Some(Operation::Dex),
        0xE8 => Some(Operation::Inx),
        0xA8 => Some(Operation::Tay),
        0x98 => Some(Operation::Tya),
        0x88 => Some(Operation::Dey),
        0xC8 => Some(Operation::Iny),
        0xA9 => Some(Operation::Lda(AddressingMode::Immediate)),
        0xA5 => Some(Operation::Lda(AddressingMode::ZeroPage)),
        0xB5 => Some(Operation::Lda(AddressingMode::ZeroPage_X)),
        0xAD => Some(Operation::Lda(AddressingMode::Absolute)),
        0xBD => Some(Operation::Lda(AddressingMode::Absolute_X)),
        0xB9 => Some(Operation::Lda(AddressingMode::Absolute_Y)),
        0xA1 => Some(Operation::Lda(AddressingMode::Indirect_X)),
        0xB1 => Some(Operation::Lda(AddressingMode::Indirect_Y)),
        0x85 => Some(Operation::Sta(AddressingMode::ZeroPage)),
        0x95 => Some(Operation::Sta(AddressingMode::ZeroPage_X)),
        0x8D => Some(Operation::Sta(AddressingMode::Absolute)),
        0x9D => Some(Operation::Sta(AddressingMode::Absolute_X)),
        0x99 => Some(Operation::Sta(AddressingMode::Absolute_Y)),
        0x81 => Some(Operation::Sta(AddressingMode::Indirect_X)),
        0x91 => Some(Operation::Sta(AddressingMode::Indirect_Y)),
        0x2A => Some(Operation::Rol(AddressingMode::Immediate)),
        0x26 => Some(Operation::Rol(AddressingMode::ZeroPage)),
        0x36 => Some(Operation::Rol(AddressingMode::ZeroPage_X)),
        0x2E => Some(Operation::Rol(AddressingMode::Absolute)),
        0x3E => Some(Operation::Rol(AddressingMode::Absolute_X)),
        0x6A => Some(Operation::Ror(AddressingMode::Immediate)),
        0x66 => Some(Operation::Ror(AddressingMode::ZeroPage)),
        0x76 => Some(Operation::Ror(AddressingMode::ZeroPage_X)),
        0x6E => Some(Operation::Ror(AddressingMode::Absolute)),
        0x7E => Some(Operation::Ror(AddressingMode::Absolute_X)),
        0x00 => Some(Operation::Brk),
        _ => None,
    }
}

} // verus!
