//! The processor: registers, memory, the reset lifecycle and the
//! fetch-decode-execute interpreter, specified against `CpuState`.
use vstd::prelude::*;
use crate::addressing::{AddressingMode, effective_address, pc_after_operand, zero_page_word};
use crate::memory::{MEM_SIZE, lemma_word_round_trip, with_word, word_at};
use crate::opcode::{Operation, decode, opcode_table};
use crate::state::{
    CpuState, NEGATIVE_FLAG, ZERO_FLAG, dec8, inc8, lemma_with_zn, negative_flag, pc_plus, with_zn,
    zero_flag,
};

verus! {

/// Address at which `load` places the first byte of a program.
pub const PROGRAM_START: u16 = 0x8000;

/// Address of the little-endian word from which `reset` takes the program
/// counter.
pub const RESET_VECTOR: u16 = 0xFFFC;

/// Longest program that `load` accepts.
pub const MAX_PROGRAM_LEN: usize = 0x7FFF;

/// Number of steps after which `interpret` gives up on a program that has
/// not halted.
pub const STEP_LIMIT: u64 = 0xFFFF_FFFF_FFFF_FFFF;

/// Why execution stopped short of a halt.
#[derive(Debug, Clone, Copy, PartialEq, Eq, Structural)]
pub enum CpuError {
    /// The byte at `pc` is not an opcode of the table.
    UnimplementedOpcode { opcode: u8, pc: u16 },
    /// An operation that needs an operand was handed `NoneAddressing`.
    InvalidAddressingMode,
    /// `interpret` ran `STEP_LIMIT` steps without reaching a halt.
    StepLimitReached,
}

/// Where the machine stands after one step, or after a bounded run.
pub enum StepOutcome {
    /// Still running, in this state.
    Running(CpuState),
    /// Halted by the break opcode, in this state.
    Halted(CpuState),
    /// Stopped by a failure, in this state.
    Failed(CpuError, CpuState),
}

/// The effect of operation `op` on state `s`, whose program counter points
/// just past the opcode byte. An operation with an operand leaves the
/// program counter just past its operand bytes, so each instruction advances
/// it by exactly its length.
pub open spec fn apply(op: Operation, s: CpuState) -> Result<CpuState, CpuError> {
    match op {
        Operation::Tax => Ok(CpuState { x: s.a, p: with_zn(s.p, s.a), ..s }),
        Operation::Txa => Ok(CpuState { a: s.x, p: with_zn(s.p, s.x), ..s }),
        Operation::Dex => Ok(CpuState { x: dec8(s.x), p: with_zn(s.p, dec8(s.x)), ..s }),
        Operation::Inx => Ok(CpuState { x: inc8(s.x), p: with_zn(s.p, inc8(s.x)), ..s }),
        Operation::Tay => Ok(CpuState { y: s.a, p: with_zn(s.p, s.a), ..s }),
        Operation::Tya => Ok(CpuState { a: s.y, p: with_zn(s.p, s.y), ..s }),
        Operation::Dey => Ok(CpuState { y: dec8(s.y), p: with_zn(s.p, dec8(s.y)), ..s }),
        Operation::Iny => Ok(CpuState { y: inc8(s.y), p: with_zn(s.p, inc8(s.y)), ..s }),
        Operation::Lda(mode) | Operation::Rol(mode) | Operation::Ror(mode) => {
            match effective_address(mode, s) {
                None => Err(CpuError::InvalidAddressingMode),
                Some(addr) => {
                    let m = s.mem[addr as int];
                    let v: u8 = match op {
                        Operation::Rol(_) => ((m * 2) % 256) as u8,
                        Operation::Ror(_) => (m / 2) as u8,
                        _ => m,
                    };
                    Ok(CpuState { a: v, p: with_zn(s.p, v), pc: pc_after_operand(mode, s), ..s })
                },
            }
        },
        Operation::Sta(mode) => {
            match effective_address(mode, s) {
                None => Err(CpuError::InvalidAddressingMode),
                Some(addr) => Ok(
                    CpuState {
                        mem: s.mem.update(addr as int, s.a),
                        pc: pc_after_operand(mode, s),
                        ..s
                    },
                ),
            }
        },
        Operation::Brk => Ok(s),
    }
}

/// One fetch-decode-execute step from state `s`. An opcode outside the table
/// fails with the state untouched; the break opcode halts just past itself.
pub open spec fn step_spec(s: CpuState) -> StepOutcome {
    let opcode = s.mem[s.pc as int];
    let t = CpuState { pc: pc_plus(s.pc, 1), ..s };
    match opcode_table(opcode) {
        None => StepOutcome::Failed(CpuError::UnimplementedOpcode { opcode, pc: s.pc }, s),
        Some(Operation::Brk) => StepOutcome::Halted(t),
        Some(op) => match apply(op, t) {
            Ok(u) => StepOutcome::Running(u),
            Err(e) => StepOutcome::Failed(e, t),
        },
    }
}

/// Stepping from `s` until a halt or a failure, for at most `fuel` steps.
pub open spec fn run_spec(s: CpuState, fuel: nat) -> StepOutcome
    decreases fuel,
{
    if fuel == 0 {
        StepOutcome::Running(s)
    } else {
        match step_spec(s) {
            StepOutcome::Running(t) => run_spec(t, (fuel - 1) as nat),
            other => other,
        }
    }
}

/// `mem` with `program` copied in from `PROGRAM_START` and `PROGRAM_START`
/// written as the reset vector.
pub open spec fn load_spec(mem: Seq<u8>, program: Seq<u8>) -> Seq<u8> {
    let copied = Seq::new(
        MEM_SIZE as nat,
        |i: int|
            if PROGRAM_START <= i < PROGRAM_START + program.len() {
                program[i - PROGRAM_START]
            } else {
                mem[i]
            },
    );
    with_word(copied, RESET_VECTOR, PROGRAM_START)
}

/// `s` after a reset: registers cleared, program counter from the reset vector.
pub open spec fn reset_spec(s: CpuState) -> CpuState {
    CpuState { a: 0, x: 0, y: 0, p: 0, pc: word_at(s.mem, RESET_VECTOR), mem: s.mem }
}

/// The state in which a run of `program` from `s` starts: loaded, then reset.
pub open spec fn boot(s: CpuState, program: Seq<u8>) -> CpuState {
    reset_spec(CpuState { mem: load_spec(s.mem, program), ..s })
}

/// A step's result and the state it left, as a `StepOutcome`.
pub open spec fn step_outcome(r: Result<bool, CpuError>, s: CpuState) -> StepOutcome {
    match r {
        Ok(false) => StepOutcome::Running(s),
        Ok(true) => StepOutcome::Halted(s),
        Err(e) => StepOutcome::Failed(e, s),
    }
}

/// A run's result and the state it left, as a `StepOutcome`.
pub open spec fn run_outcome(r: Result<(), CpuError>, s: CpuState) -> StepOutcome {
    match r {
        Ok(()) => StepOutcome::Halted(s),
        Err(CpuError::StepLimitReached) => StepOutcome::Running(s),
        Err(e) => StepOutcome::Failed(e, s),
    }
}

/// A handler's result and the state it left, as `apply` gives it.
pub open spec fn handled(r: Result<(), CpuError>, s: CpuState) -> Result<CpuState, CpuError> {
    match r {
        Ok(()) => Ok(s),
        Err(e) => Err(e),
    }
}

/// Setting or clearing each flag in turn, as the processor does, gives `with_zn`.
proof fn lemma_flag_steps(p: u8, result: u8, p1: u8, p2: u8)
    by (bit_vector)
    requires
        p1 == (if result == 0 { p | 0b0000_0010 } else { p & 0b1111_1101 }),
        p2 == (if result & 0b1000_0000 != 0 { p1 | 0b1000_0000 } else { p1 & 0b0111_1111 }),
    ensures
        p2 == with_zn(p, result),
{
}

/// The processor, owning its 64 KiB of memory.
pub struct CPU {
    pub register_a: u8,
    pub register_x: u8,
    pub register_y: u8,
    pub status_p: u8,
    pub program_counter: u16,
    memory: Vec<u8>,
}

impl View for CPU {
    type V = CpuState;

    closed spec fn view(&self) -> CpuState {
        CpuState {
            a: self.register_a,
            x: self.register_x,
            y: self.register_y,
            p: self.status_p,
            pc: self.program_counter,
            mem: self.memory@,
        }
    }
}

impl CPU {
    /// Memory holds exactly one byte per address.
    pub open spec fn wf(&self) -> bool {
        self@.mem.len() == MEM_SIZE
    }

    /// A processor with every register and every byte of memory at zero.
    pub fn new() -> (r: Self)
        ensures
            r.wf(),
            r@.a == 0 && r@.x == 0 && r@.y == 0 && r@.p == 0 && r@.pc == 0,
            forall|i: int| 0 <= i < MEM_SIZE ==> r@.mem[i] == 0,
    {
        CPU {
            register_a: 0,
            register_x: 0,
            register_y: 0,
            status_p: 0,
            program_counter: 0,
            memory: vec![0u8; MEM_SIZE],
        }
    }

    /// Clears A, X, Y and the status register and takes the program counter
    /// from the reset vector.
    pub fn reset(&mut self)
        requires
            old(self).wf(),
        ensures
            final(self).wf(),
            final(self)@ == reset_spec(old(self)@),
    {
        self.register_a = 0;
        self.register_x = 0;
        self.register_y = 0;
        self.status_p = 0;
        self.program_counter = self.mem_read_u16(RESET_VECTOR);
    }

    /// The byte at `addr`.
    pub fn mem_read(&self, addr: u16) -> (r: u8)
        requires
            self.wf(),
        ensures
            r == self@.mem[addr as int],
    {
        self.memory[addr as usize]
    }

    /// The little-endian word at `addr`, its high byte wrapping to 0x0000
    /// when `addr` is 0xFFFF.
    pub fn mem_read_u16(&self, addr: u16) -> (r: u16)
        requires
            self.wf(),
        ensures
            r == word_at(self@.mem, addr),
    {
        let lo = self.mem_read(addr) as u16;
        let hi = self.mem_read(addr.wrapping_add(1)) as u16;
        hi * 256 + lo
    }

    /// Stores `data` at `addr`.
    pub fn mem_write(&mut self, addr: u16, data: u8)
        requires
            old(self).wf(),
        ensures
            final(self).wf(),
            final(self)@ == (CpuState { mem: old(self)@.mem.update(addr as int, data), ..old(self)@ }),
    {
        self.memory[addr as usize] = data;
    }

    /// Stores `data` little-endian at `addr`, its high byte wrapping to
    /// 0x0000 when `addr` is 0xFFFF.
    pub fn mem_write_u16(&mut self, pos: u16, data: u16)
        requires
            old(self).wf(),
        ensures
            final(self).wf(),
            final(self)@ == (CpuState { mem: with_word(old(self)@.mem, pos, data), ..old(self)@ }),
    {
        let hi = (data / 256) as u8;
        let lo = (data % 256) as u8;
        self.mem_write(pos, lo);
        self.mem_write(pos.wrapping_add(1), hi);
    }

    /// Sets the Zero flag iff `result` is 0 and the Negative flag iff its
    /// bit 7 is 1, keeping the other status bits.
    fn update_zero_and_negative_flags(&mut self, result: u8)
        requires
            old(self).wf(),
        ensures
            final(self).wf(),
            final(self)@ == (CpuState { p: with_zn(old(self)@.p, result), ..old(self)@ }),
    {
        let ghost p = self.status_p;
        if result == 0 {
            self.status_p = self.status_p | ZERO_FLAG;
        } else {
            self.status_p = self.status_p & 0b1111_1101;
        }
        let ghost p1 = self.status_p;
        if result & NEGATIVE_FLAG != 0 {
            self.status_p = self.status_p | NEGATIVE_FLAG;
        } else {
            self.status_p = self.status_p & 0b0111_1111;
        }
        proof {
            lemma_flag_steps(p, result, p1, self.status_p);
        }
    }

    /// The little-endian word in the zero page at `ptr`, its high byte
    /// wrapping within the zero page.
    fn read_zero_page_word(&self, ptr: u8) -> (r: u16)
        requires
            self.wf(),
        ensures
            r == zero_page_word(self@.mem, ptr),
    {
        let lo = self.mem_read(ptr as u16) as u16;
        let hi = self.mem_read(ptr.wrapping_add(1) as u16) as u16;
        hi * 256 + lo
    }

    /// Resolves the effective address of `mode` from the operand bytes at the
    /// program counter and moves the program counter past them. Fails, with
    /// nothing changed, on `NoneAddressing`.
    #[verifier::rlimit(40)]
    fn fetch_operand_addr(&mut self, mode: &AddressingMode) -> (r: Result<u16, CpuError>)
        requires
            old(self).wf(),
        ensures
            final(self).wf(),
            match effective_address(*mode, old(self)@) {
                Some(addr) => r == Ok::<u16, CpuError>(addr) && final(self)@ == (CpuState {
                    pc: pc_after_operand(*mode, old(self)@),
                    ..old(self)@
                }),
                None => r == Err::<u16, CpuError>(CpuError::InvalidAddressingMode) && final(self)@
                    == old(self)@,
            },
    {
        let pc = self.program_counter;
        let (addr, len): (u16, u16) = match *mode {
            AddressingMode::Immediate => (pc, 1),
            AddressingMode::ZeroPage => (self.mem_read(pc) as u16, 1),
            AddressingMode::ZeroPage_X => (self.mem_read(pc).wrapping_add(self.register_x) as u16, 1),
            AddressingMode::ZeroPage_Y => (self.mem_read(pc).wrapping_add(self.register_y) as u16, 1),
            AddressingMode::Absolute => (self.mem_read_u16(pc), 2),
            AddressingMode::Absolute_X => {
                (self.mem_read_u16(pc).wrapping_add(self.register_x as u16), 2)
            },
            AddressingMode::Absolute_Y => {
                (self.mem_read_u16(pc).wrapping_add(self.register_y as u16), 2)
            },
            AddressingMode::Indirect_X => {
                let ptr = self.mem_read(pc).wrapping_add(self.register_x);
                (self.read_zero_page_word(ptr), 1)
            },
            AddressingMode::Indirect_Y => {
                let base = self.read_zero_page_word(self.mem_read(pc));
                (base.wrapping_add(self.register_y as u16), 1)
            },
            AddressingMode::NoneAddressing => {
                return Err(CpuError::InvalidAddressingMode);
            },
        };
        self.program_counter = pc.wrapping_add(len);
        Ok(addr)
    }

    /// Copies A into X.
    fn tax(&mut self)
        requires
            old(self).wf(),
        ensures
            final(self).wf(),
            Ok::<CpuState, CpuError>(final(self)@) == apply(Operation::Tax, old(self)@),
    {
        self.register_x = self.register_a;
        self.update_zero_and_negative_flags(self.register_x);
    }

    /// Copies X into A.
    fn txa(&mut self)
        requires
            old(self).wf(),
        ensures
            final(self).wf(),
            Ok::<CpuState, CpuError>(final(self)@) == apply(Operation::Txa, old(self)@),
    {
        self.register_a = self.register_x;
        self.update_zero_and_negative_flags(self.register_a);
    }

    /// Decrements X, wrapping from 0 to 255.
    fn dex(&mut self)
        requires
            old(self).wf(),
        ensures
            final(self).wf(),
            Ok::<CpuState, CpuError>(final(self)@) == apply(Operation::Dex, old(self)@),
    {
        self.register_x = self.register_x.wrapping_sub(1);
        self.update_zero_and_negative_flags(self.register_x);
    }

    /// Increments X, wrapping from 255 to 0.
    fn inx(&mut self)
        requires
            old(self).wf(),
        ensures
            final(self).wf(),
            Ok::<CpuState, CpuError>(final(self)@) == apply(Operation::Inx, old(self)@),
    {
        self.register_x = self.register_x.wrapping_add(1);
        self.update_zero_and_negative_flags(self.register_x);
    }

    /// Copies A into Y.
    fn tay(&mut self)
        requires
            old(self).wf(),
        ensures
            final(self).wf(),
            Ok::<CpuState, CpuError>(final(self)@) == apply(Operation::Tay, old(self)@),
    {
        self.register_y = self.register_a;
        self.update_zero_and_negative_flags(self.register_y);
    }

    /// Copies Y into A.
    fn tya(&mut self)
        requires
            old(self).wf(),
        ensures
            final(self).wf(),
            Ok::<CpuState, CpuError>(final(self)@) == apply(Operation::Tya, old(self)@),
    {
        self.register_a = self.register_y;
        self.update_zero_and_negative_flags(self.register_a);
    }

    /// Decrements Y, wrapping from 0 to 255.
    fn dey(&mut self)
        requires
            old(self).wf(),
        ensures
            final(self).wf(),
            Ok::<CpuState, CpuError>(final(self)@) == apply(Operation::Dey, old(self)@),
    {
        self.register_y = self.register_y.wrapping_sub(1);
        self.update_zero_and_negative_flags(self.register_y);
    }

    /// Increments Y, wrapping from 255 to 0.
    fn iny(&mut self)
        requires
            old(self).wf(),
        ensures
            final(self).wf(),
            Ok::<CpuState, CpuError>(final(self)@) == apply(Operation::Iny, old(self)@),
    {
        self.register_y = self.register_y.wrapping_add(1);
        self.update_zero_and_negative_flags(self.register_y);
    }

    /// Loads A from the operand.
    fn lda(&mut self, mode: &AddressingMode) -> (r: Result<(), CpuError>)
        requires
            old(self).wf(),
        ensures
            final(self).wf(),
            handled(r, final(self)@) == apply(Operation::Lda(*mode), old(self)@),
            r.is_err() ==> final(self)@ == old(self)@,
    {
        let addr = match self.fetch_operand_addr(mode) {
            Ok(addr) => addr,
            Err(e) => {
                return Err(e);
            },
        };
        let param = self.mem_read(addr);
        self.register_a = param;
        self.update_zero_and_negative_flags(self.register_a);
        Ok(())
    }

    /// Stores A at the operand's address; the flags are kept.
    fn sta(&mut self, mode: &AddressingMode) -> (r: Result<(), CpuError>)
        requires
            old(self).wf(),
        ensures
            final(self).wf(),
            handled(r, final(self)@) == apply(Operation::Sta(*mode), old(self)@),
            r.is_err() ==> final(self)@ == old(self)@,
    {
        let addr = match self.fetch_operand_addr(mode) {
            Ok(addr) => addr,
            Err(e) => {
                return Err(e);
            },
        };
        self.mem_write(addr, self.register_a);
        Ok(())
    }

    /// Loads A with the operand shifted left by one bit (no carry).
    fn rol(&mut self, mode: &AddressingMode) -> (r: Result<(), CpuError>)
        requires
            old(self).wf(),
        ensures
            final(self).wf(),
            handled(r, final(self)@) == apply(Operation::Rol(*mode), old(self)@),
            r.is_err() ==> final(self)@ == old(self)@,
    {
        let addr = match self.fetch_operand_addr(mode) {
            Ok(addr) => addr,
            Err(e) => {
                return Err(e);
            },
        };
        let param = self.mem_read(addr);
        assert(param << 1u8 == ((param * 2) % 256) as u8) by (bit_vector);
        self.register_a = param << 1;
        self.update_zero_and_negative_flags(self.register_a);
        Ok(())
    }

    /// Loads A with the operand shifted right by one bit (no carry).
    fn ror(&mut self, mode: &AddressingMode) -> (r: Result<(), CpuError>)
        requires
            old(self).wf(),
        ensures
            final(self).wf(),
            handled(r, final(self)@) == apply(Operation::Ror(*mode), old(self)@),
            r.is_err() ==> final(self)@ == old(self)@,
    {
        let addr = match self.fetch_operand_addr(mode) {
            Ok(addr) => addr,
            Err(e) => {
                return Err(e);
            },
        };
        let param = self.mem_read(addr);
        assert(param >> 1u8 == param / 2) by (bit_vector);
        self.register_a = param >> 1;
        self.update_zero_and_negative_flags(self.register_a);
        Ok(())
    }

    /// Runs the handler of a decoded operation `op` on the operand bytes at
    /// the program counter. Fails, with nothing changed, when an operation
    /// that needs an operand is given `NoneAddressing`.
    pub fn execute(&mut self, op: Operation) -> (r: Result<(), CpuError>)
        requires
            old(self).wf(),
        ensures
            final(self).wf(),
            handled(r, final(self)@) == apply(op, old(self)@),
            r.is_err() ==> final(self)@ == old(self)@,
    {
        match op {
            Operation::Tax => self.tax(),
            Operation::Txa => self.txa(),
            Operation::Dex => self.dex(),
            Operation::Inx => self.inx(),
            Operation::Tay => self.tay(),
            Operation::Tya => self.tya(),
            Operation::Dey => self.dey(),
            Operation::Iny => self.iny(),
            Operation::Lda(mode) => {
                return self.lda(&mode);
            },
            Operation::Sta(mode) => {
                return self.sta(&mode);
            },
            Operation::Rol(mode) => {
                return self.rol(&mode);
            },
            Operation::Ror(mode) => {
                return self.ror(&mode);
            },
            Operation::Brk => {},
        }
        Ok(())
    }

    /// Executes one instruction: fetches the opcode at the program counter,
    /// decodes it and runs its handler. Returns whether the break opcode
    /// halted the machine. An opcode outside the table fails with nothing
    /// changed.
    pub fn step(&mut self) -> (r: Result<bool, CpuError>)
        requires
            old(self).wf(),
        ensures
            final(self).wf(),
            step_outcome(r, final(self)@) == step_spec(old(self)@),
    {
        let pc = self.program_counter;
        let opcode = self.mem_read(pc);
        match decode(opcode) {
            None => Err(CpuError::UnimplementedOpcode { opcode, pc }),
            Some(op) => {
                self.program_counter = pc.wrapping_add(1);
                match op {
                    Operation::Brk => Ok(true),
                    _ => match self.execute(op) {
                        Ok(()) => Ok(false),
                        Err(e) => Err(e),
                    },
                }
            },
        }
    }

    /// Steps until the break opcode halts the machine or an instruction
    /// fails, giving up after `STEP_LIMIT` steps.
    pub fn interpret(&mut self) -> (r: Result<(), CpuError>)
        requires
            old(self).wf(),
        ensures
            final(self).wf(),
            run_outcome(r, final(self)@) == run_spec(old(self)@, STEP_LIMIT as nat),
    {
        let mut remaining: u64 = STEP_LIMIT;
        while remaining > 0
            invariant
                self.wf(),
                run_spec(self@, remaining as nat) == run_spec(old(self)@, STEP_LIMIT as nat),
            decreases remaining,
        {
            match self.step() {
                Ok(true) => {
                    return Ok(());
                },
                Ok(false) => {},
                Err(e) => {
                    return Err(e);
                },
            }
            remaining = remaining - 1;
        }
        Err(CpuError::StepLimitReached)
    }

    /// Copies `program` into memory from `PROGRAM_START` and writes
    /// `PROGRAM_START` as the reset vector; the registers are kept.
    pub fn load(&mut self, program: Vec<u8>)
        requires
            old(self).wf(),
            program.len() <= MAX_PROGRAM_LEN,
        ensures
            final(self).wf(),
            final(self)@ == (CpuState { mem: load_spec(old(self)@.mem, program@), ..old(self)@ }),
    {
        let ghost start = self@;
        let n = program.len();
        let mut i: usize = 0;
        while i < n
            invariant
                self.wf(),
                n == program.len(),
                n <= MAX_PROGRAM_LEN,
                i <= n,
                self@.a == start.a && self@.x == start.x && self@.y == start.y,
                self@.p == start.p && self@.pc == start.pc,
                forall|j: int|
                    0 <= j < MEM_SIZE ==> #[trigger] self@.mem[j] == if PROGRAM_START <= j
                        < PROGRAM_START + i {
                        program@[j - PROGRAM_START]
                    } else {
                        start.mem[j]
                    },
            decreases n - i,
        {
            self.mem_write(PROGRAM_START + i as u16, program[i]);
            i = i + 1;
        }
        let ghost copied = Seq::new(
            MEM_SIZE as nat,
            |j: int|
                if PROGRAM_START <= j < PROGRAM_START + program.len() {
                    program@[j - PROGRAM_START]
                } else {
                    start.mem[j]
                },
        );
        assert(self@.mem =~= copied);
        self.mem_write_u16(RESET_VECTOR, PROGRAM_START);
    }

    /// Loads `program`, resets, and interprets until a halt or a failure.
    pub fn run(&mut self, program: Vec<u8>) -> (r: Result<(), CpuError>)
        requires
            old(self).wf(),
            program.len() <= MAX_PROGRAM_LEN,
        ensures
            final(self).wf(),
            run_outcome(r, final(self)@) == run_spec(boot(old(self)@, program@), STEP_LIMIT as nat),
    {
        self.load(program);
        self.reset();
        self.interpret()
    }
}

/// After `load`, the reset vector holds `PROGRAM_START`, and `reset` takes
/// the program counter from it: a loaded program starts at its first byte.
pub proof fn lemma_reset_vector(s: CpuState, program: Seq<u8>)
    requires
        s.mem.len() == MEM_SIZE,
        program.len() <= MAX_PROGRAM_LEN,
    ensures
        word_at(load_spec(s.mem, program), RESET_VECTOR) == PROGRAM_START,
        boot(s, program).pc == word_at(load_spec(s.mem, program), RESET_VECTOR),
        boot(s, program).pc == PROGRAM_START,
{
    let copied = Seq::new(
        MEM_SIZE as nat,
        |i: int|
            if PROGRAM_START <= i < PROGRAM_START + program.len() {
                program[i - PROGRAM_START]
            } else {
                s.mem[i]
            },
    );
    lemma_word_round_trip(copied, RESET_VECTOR, PROGRAM_START);
}

/// A byte outside the opcode table, reached by a step or by a run, fails
/// with `UnimplementedOpcode` naming the byte and its address, and leaves
/// every register and all of memory as they were.
pub proof fn lemma_unimplemented_opcode(s: CpuState, fuel: nat)
    requires
        opcode_table(s.mem[s.pc as int]) == None::<Operation>,
        fuel > 0,
    ensures
        step_spec(s) == StepOutcome::Failed(
            CpuError::UnimplementedOpcode { opcode: s.mem[s.pc as int], pc: s.pc },
            s,
        ),
        run_spec(s, fuel) == step_spec(s),
{
}

/// Running "LDA immediate `v`; halt" leaves `v` in A, the Zero flag set iff
/// `v` is 0 and the Negative flag set iff bit 7 of `v` is 1.
pub proof fn lemma_lda_immediate_program(s: CpuState, v: u8)
    requires
        s.mem.len() == MEM_SIZE,
    ensures
        match run_spec(boot(s, seq![0xA9u8, v, 0x00u8]), STEP_LIMIT as nat) {
            StepOutcome::Halted(t) => t.a == v && zero_flag(t.p) == (v == 0) && negative_flag(t.p)
                == (v >= 0x80),
            _ => false,
        },
{
    let program = seq![0xA9u8, v, 0x00u8];
    lemma_reset_vector(s, program);
    lemma_with_zn(0, v);
    let b = boot(s, program);
    assert(b.mem[0x8000] == 0xA9u8);
    assert(b.mem[0x8001] == v);
    assert(b.mem[0x8002] == 0x00u8);
    reveal_with_fuel(run_spec, 3);
}

/// Running "TAX; halt" with `v` placed in A after the reset leaves `v` in X.
pub proof fn lemma_tax_program(s: CpuState, v: u8)
    requires
        s.mem.len() == MEM_SIZE,
    ensures
        match run_spec(
            (CpuState { a: v, ..boot(s, seq![0xAAu8, 0x00u8]) }),
            STEP_LIMIT as nat,
        ) {
            StepOutcome::Halted(t) => t.x == v,
            _ => false,
        },
{
    let program = seq![0xAAu8, 0x00u8];
    lemma_reset_vector(s, program);
    let b = boot(s, program);
    assert(b.mem[0x8000] == 0xAAu8);
    assert(b.mem[0x8001] == 0x00u8);
    reveal_with_fuel(run_spec, 3);
}

} // verus!
