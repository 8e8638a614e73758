//! The execution core of an 8-bit microprocessor: registers, a flat 64 KiB
//! address space, the addressing-mode resolver and the fetch-decode-execute
//! interpreter, each with a contract over a mathematical model of the machine.

pub mod memory;
pub mod state;
pub mod addressing;
pub mod opcode;
pub mod cpu;

pub use addressing::AddressingMode;
pub use cpu::{CPU, CpuError, MAX_PROGRAM_LEN, PROGRAM_START, RESET_VECTOR, STEP_LIMIT};
pub use memory::MEM_SIZE;
pub use opcode::{Operation, decode};
pub use state::{NEGATIVE_FLAG, ZERO_FLAG};
