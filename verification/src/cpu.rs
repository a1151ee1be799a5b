//! The CPU core: eight registers, a program counter and four flags, and
//! what each instruction does to them.
//!
//! The core never touches memory itself. Executing an instruction word
//! changes the registers and says which memory access, if any, the
//! instruction asks for; whoever drives the core performs it.

use vstd::prelude::*;
use crate::alu::AluResult;
use crate::alu::Flags;
use crate::alu::alu;
use crate::alu::alu_result;
use crate::alu::branch_taken;
use crate::alu::cond_holds;
use crate::alu::unary;
use crate::alu::unary_result;
use crate::alu::wrap;
use crate::isa::AluOp;
use crate::isa::Instr;
use crate::isa::decode;
use crate::isa::decoding;
use crate::isa::lemma_encode_decode;

verus! {

/// Whether the core runs, and if not, what stopped it.
#[derive(Clone, Copy, Debug, PartialEq, Eq, Structural)]
pub enum Status {
    Running,
    /// The program executed `halt`.
    Halted,
    /// The program counter met a word that encodes no instruction.
    IllegalInstruction,
    /// The program stored to the input port.
    PortWrite,
}

/// The memory access that an instruction asks for.
#[derive(Clone, Copy, Debug, PartialEq, Eq, Structural)]
pub enum BusOp {
    /// None.
    Idle,
    /// Read the word at `addr` and put it in register `rd`.
    Load { rd: u8, addr: u16 },
    /// Write `data` to `addr`.
    Store { addr: u16, data: u16 },
}

/// The state of the core, as plain values.
#[verifier::ext_equal]
pub struct CpuView {
    pub regs: Seq<u16>,
    pub pc: u16,
    pub flags: Flags,
    pub status: Status,
}

impl CpuView {
    pub open spec fn wf(self) -> bool {
        self.regs.len() == 8
    }

    /// The core at power-on: registers, program counter and flags all zero.
    pub open spec fn reset() -> CpuView {
        CpuView {
            regs: Seq::new(8, |i: int| 0u16),
            pc: 0,
            flags: Flags { zero: false, negative: false, carry: false, overflow: false },
            status: Status::Running,
        }
    }

    /// The core with `value` in register `rd`.
    pub open spec fn with_reg(self, rd: u8, value: u16) -> CpuView {
        CpuView { regs: self.regs.update(rd as int, value), ..self }
    }

    /// The core with the result of the ALU in register `rd` and in the flags.
    pub open spec fn with_result(self, rd: u8, r: AluResult) -> CpuView {
        CpuView { regs: self.regs.update(rd as int, r.value), flags: r.flags, ..self }
    }

    /// The core stopped for the given reason.
    pub open spec fn stopped(self, status: Status) -> CpuView {
        CpuView { status, ..self }
    }

    /// What an instruction does to a core whose program counter already
    /// points past it, and the memory access it asks for. `None` stands for
    /// an illegal word.
    pub open spec fn executed(self, instr: Option<Instr>) -> (CpuView, BusOp) {
        match instr {
            None => (self.stopped(Status::IllegalInstruction), BusOp::Idle),
            Some(Instr::Halt) => (self.stopped(Status::Halted), BusOp::Idle),
            Some(Instr::Alu { op, rd, rs, rt }) => (
                self.with_result(
                    rd,
                    alu_result(op, self.regs[rs as int], self.regs[rt as int], self.flags.carry),
                ),
                BusOp::Idle,
            ),
            Some(Instr::Unary { op, rd, rs }) => (
                self.with_result(rd, unary_result(op, self.regs[rs as int], self.flags.carry)),
                BusOp::Idle,
            ),
            Some(Instr::Addi { rd, rs, imm }) => (
                self.with_result(
                    rd,
                    alu_result(AluOp::Add, self.regs[rs as int], wrap(imm as int), false),
                ),
                BusOp::Idle,
            ),
            Some(Instr::Movi { rd, imm }) => (self.with_reg(rd, imm as u16), BusOp::Idle),
            Some(Instr::Lui { rd, imm }) => (
                self.with_reg(rd, (imm * 256 + self.regs[rd as int] % 256) as u16),
                BusOp::Idle,
            ),
            Some(Instr::Lw { rd, rs, imm }) => (
                self,
                BusOp::Load { rd, addr: wrap(self.regs[rs as int] + imm) },
            ),
            Some(Instr::Sw { rd, rs, imm }) => (
                self,
                BusOp::Store { addr: wrap(self.regs[rd as int] + imm), data: self.regs[rs as int] },
            ),
            Some(Instr::Swi { rs, addr }) => (
                self,
                BusOp::Store { addr, data: self.regs[rs as int] },
            ),
            Some(Instr::Jmp { offset }) => (
                CpuView { pc: wrap(self.pc + offset), ..self },
                BusOp::Idle,
            ),
            Some(Instr::Jalr { rd, rs }) => (
                CpuView { pc: self.regs[rs as int], ..self.with_reg(rd, self.pc) },
                BusOp::Idle,
            ),
            Some(Instr::Branch { cond, offset }) => (
                if cond_holds(cond, self.flags) {
                    CpuView { pc: wrap(self.pc + offset), ..self }
                } else {
                    self
                },
                BusOp::Idle,
            ),
        }
    }

    /// One instruction: the program counter moves on by one, modulo 65,536,
    /// and then the instruction that `word` encodes is executed. A core that
    /// has stopped stays as it is.
    pub open spec fn stepped(self, word: u16) -> (CpuView, BusOp) {
        if self.status == Status::Running {
            CpuView { pc: wrap(self.pc + 1), ..self }.executed(decoding(word))
        } else {
            (self, BusOp::Idle)
        }
    }
}

/// The CPU core.
pub struct Cpu {
    regs: [u16; 8],
    pc: u16,
    flags: Flags,
    status: Status,
}

impl View for Cpu {
    type V = CpuView;

    closed spec fn view(&self) -> CpuView {
        CpuView { regs: self.regs@, pc: self.pc, flags: self.flags, status: self.status }
    }
}

/// A word moved by a signed offset, modulo 65,536.
fn displace(word: u16, offset: i16) -> (moved: u16)
    ensures
        moved == wrap(word + offset),
{
    let sum: i32 = word as i32 + offset as i32 + 0x10000;
    (sum % 0x10000) as u16
}

impl Cpu {
    /// The register file always holds eight words.
    pub proof fn lemma_wf(&self)
        ensures
            self@.wf(),
    {
    }

    /// A core at power-on.
    pub fn new() -> (cpu: Cpu)
        ensures
            cpu@ == CpuView::reset(),
    {
        let cpu = Cpu {
            regs: [0; 8],
            pc: 0,
            flags: Flags { zero: false, negative: false, carry: false, overflow: false },
            status: Status::Running,
        };
        assert(cpu@.regs =~= CpuView::reset().regs);
        cpu
    }

    /// The word in register `r`.
    pub fn reg(&self, r: u8) -> (word: u16)
        requires
            r < 8,
        ensures
            word == self@.regs[r as int],
    {
        self.regs[r as usize]
    }

    /// The program counter: the address of the next instruction.
    pub fn pc(&self) -> (pc: u16)
        ensures
            pc == self@.pc,
    {
        self.pc
    }

    pub fn flags(&self) -> (flags: Flags)
        ensures
            flags == self@.flags,
    {
        self.flags
    }

    pub fn status(&self) -> (status: Status)
        ensures
            status == self@.status,
    {
        self.status
    }

    /// Whether the core has stopped, for whatever reason.
    pub fn is_halted(&self) -> (halted: bool)
        ensures
            halted == (self@.status != Status::Running),
    {
        match self.status {
            Status::Running => false,
            _ => true,
        }
    }

    fn set_result(&mut self, rd: u8, r: AluResult)
        requires
            rd < 8,
        ensures
            final(self)@ == old(self)@.with_result(rd, r),
    {
        self.regs[rd as usize] = r.value;
        self.flags = r.flags;
        assert(self@ =~= old(self)@.with_result(rd, r));
    }

    /// Completes a load: puts the word that was read in register `rd`.
    pub fn load(&mut self, rd: u8, value: u16)
        requires
            rd < 8,
        ensures
            final(self)@ == old(self)@.with_reg(rd, value),
    {
        self.regs[rd as usize] = value;
        assert(self@ =~= old(self)@.with_reg(rd, value));
    }

    fn stop(&mut self, status: Status)
        ensures
            final(self)@ == old(self)@.stopped(status),
    {
        self.status = status;
        assert(self@ =~= old(self)@.stopped(status));
    }

    /// Stops the core because the store that it asked for was aimed at the
    /// input port.
    pub fn refuse_store(&mut self)
        ensures
            final(self)@ == old(self)@.stopped(Status::PortWrite),
    {
        self.stop(Status::PortWrite);
    }

    /// Executes the instruction word that was fetched at the program
    /// counter, and returns the memory access that it asks for. A register
    /// number in the returned access is below 8.
    pub fn execute(&mut self, word: u16) -> (op: BusOp)
        ensures
            (final(self)@, op) == old(self)@.stepped(word),
            op matches BusOp::Load { rd, addr } ==> rd < 8,
    {
        if self.is_halted() {
            return BusOp::Idle;
        }
        self.pc = if self.pc == 0xffff {
            0
        } else {
            self.pc + 1
        };
        proof {
            lemma_encode_decode(word);
        }
        let ghost advanced = self@;
        assert(advanced =~= CpuView { pc: wrap(old(self)@.pc + 1), ..old(self)@ });
        let op = match decode(word) {
            None => {
                self.stop(Status::IllegalInstruction);
                BusOp::Idle
            },
            Some(Instr::Halt) => {
                self.stop(Status::Halted);
                BusOp::Idle
            },
            Some(Instr::Alu { op, rd, rs, rt }) => {
                let r = alu(op, self.regs[rs as usize], self.regs[rt as usize], self.flags.carry);
                self.set_result(rd, r);
                BusOp::Idle
            },
            Some(Instr::Unary { op, rd, rs }) => {
                let r = unary(op, self.regs[rs as usize], self.flags.carry);
                self.set_result(rd, r);
                BusOp::Idle
            },
            Some(Instr::Addi { rd, rs, imm }) => {
                let r = alu(AluOp::Add, self.regs[rs as usize], displace(0, imm as i16), false);
                self.set_result(rd, r);
                BusOp::Idle
            },
            Some(Instr::Movi { rd, imm }) => {
                self.load(rd, imm as u16);
                BusOp::Idle
            },
            Some(Instr::Lui { rd, imm }) => {
                let low: u16 = self.regs[rd as usize] % 256;
                self.load(rd, (imm as u16) * 256 + low);
                BusOp::Idle
            },
            Some(Instr::Lw { rd, rs, imm }) => BusOp::Load {
                rd,
                addr: displace(self.regs[rs as usize], imm as i16),
            },
            Some(Instr::Sw { rd, rs, imm }) => BusOp::Store {
                addr: displace(self.regs[rd as usize], imm as i16),
                data: self.regs[rs as usize],
            },
            Some(Instr::Swi { rs, addr }) => BusOp::Store { addr, data: self.regs[rs as usize] },
            Some(Instr::Jmp { offset }) => {
                self.pc = displace(self.pc, offset);
                BusOp::Idle
            },
            Some(Instr::Jalr { rd, rs }) => {
                let target: u16 = self.regs[rs as usize];
                let link: u16 = self.pc;
                self.load(rd, link);
                self.pc = target;
                BusOp::Idle
            },
            Some(Instr::Branch { cond, offset }) => {
                if branch_taken(cond, self.flags) {
                    self.pc = displace(self.pc, offset as i16);
                }
                BusOp::Idle
            },
        };
        assert(self@ =~= advanced.executed(decoding(word)).0);
        op
    }
}

} // verus!
