//! Machine state: memory, general-purpose registers, program counter and
//! condition-code register, together with the read and write operations that
//! opcode handlers use. Every write to a general-purpose register updates the
//! condition flags from the value written.

use vstd::prelude::*;

use crate::bits::{classify, spec_classify, CondFlag};

verus! {

/// Number of words of memory: one for each 16-bit address.
pub const MEM_SIZE: usize = 0x10000;

/// Number of general-purpose registers.
pub const NUM_GP_REGS: usize = 8;

/// The origin substituted when an image's origin word is zero.
pub const PRGM_START_ADDR: u16 = 0x3000;

/// The mathematical model of the machine: memory and register contents as
/// sequences of 16-bit words, the program counter, and the condition flag.
#[verifier::ext_equal]
pub struct MachineView {
    pub mem: Seq<u16>,
    pub regs: Seq<u16>,
    pub pc: u16,
    pub cond: CondFlag,
}

impl MachineView {
    /// Memory holds one word per address and there are eight registers.
    pub open spec fn wf(self) -> bool {
        self.mem.len() == MEM_SIZE && self.regs.len() == NUM_GP_REGS
    }

    /// The same machine with the given register replaced and the condition
    /// flag classified from the value written.
    pub open spec fn with_reg_write(self, n: u16, value: u16) -> MachineView {
        MachineView {
            regs: self.regs.update(n as int, value),
            cond: spec_classify(value),
            ..self
        }
    }

    /// The same machine with the given register replaced and the condition
    /// flag untouched.
    pub open spec fn with_reg_set(self, n: u16, value: u16) -> MachineView {
        MachineView { regs: self.regs.update(n as int, value), ..self }
    }

    /// The same machine with the given memory word replaced.
    pub open spec fn with_mem_write(self, addr: u16, value: u16) -> MachineView {
        MachineView { mem: self.mem.update(addr as int, value), ..self }
    }

    /// The same machine with the program counter replaced.
    pub open spec fn with_pc(self, pc: u16) -> MachineView {
        MachineView { pc, ..self }
    }
}

/// The program counter one word further on, wrapping at the top of the
/// 16-bit address space.
pub open spec fn wrap_inc(pc: u16) -> u16 {
    ((pc + 1) % 0x10000) as u16
}

/// The simulated machine: 65,536 words of memory, eight general-purpose
/// registers, the program counter, and the condition-code register. The
/// machine is the sole owner of all four for the lifetime of a run.
pub struct LC3 {
    memory: Vec<u16>,
    gp_regs: Vec<u16>,
    pc: u16,
    cond: CondFlag,
}

impl View for LC3 {
    type V = MachineView;

    closed spec fn view(&self) -> MachineView {
        MachineView { mem: self.memory@, regs: self.gp_regs@, pc: self.pc, cond: self.cond }
    }
}

impl LC3 {
    /// The struct's fields satisfy the model's well-formedness.
    pub open spec fn wf(self) -> bool {
        self@.wf()
    }

    /// A machine with the given memory contents, the program counter at
    /// `origin`, registers zeroed, and the condition flag `Zero` (matching
    /// the zeroed registers).
    pub fn new(origin: u16, memory: Vec<u16>) -> (m: LC3)
        requires
            memory@.len() == MEM_SIZE,
        ensures
            m.wf(),
            m@.mem == memory@,
            m@.regs.len() == NUM_GP_REGS,
            forall|i: int| 0 <= i < NUM_GP_REGS ==> m@.regs[i] == 0,
            m@.pc == origin,
            m@.cond == CondFlag::Zero,
    {
        let mut gp_regs: Vec<u16> = Vec::new();
        while gp_regs.len() < NUM_GP_REGS
            invariant
                gp_regs@.len() <= NUM_GP_REGS,
                forall|i: int| 0 <= i < gp_regs@.len() ==> gp_regs@[i] == 0,
            decreases NUM_GP_REGS - gp_regs.len(),
        {
            gp_regs.push(0);
        }
        LC3 { memory, gp_regs, pc: origin, cond: CondFlag::Zero }
    }

    /// The word of memory the program counter points at.
    pub fn fetch(&self) -> (w: u16)
        requires
            self.wf(),
        ensures
            w == self@.mem[self@.pc as int],
    {
        self.memory[self.pc as usize]
    }

    /// The word of memory at `addr`. Every 16-bit address is in range.
    pub fn read_mem(&self, addr: u16) -> (w: u16)
        requires
            self.wf(),
        ensures
            w == self@.mem[addr as int],
    {
        self.memory[addr as usize]
    }

    /// Writes `value` to the word of memory at `addr`; registers, program
    /// counter and condition flag are untouched.
    pub fn write_mem(&mut self, addr: u16, value: u16)
        requires
            old(self).wf(),
        ensures
            final(self).wf(),
            final(self)@ == old(self)@.with_mem_write(addr, value),
    {
        self.memory[addr as usize] = value;
    }

    /// The value of general-purpose register `n`.
    pub fn read_reg(&self, n: u16) -> (r: u16)
        requires
            self.wf(),
            n < 8,
        ensures
            r == self@.regs[n as int],
    {
        self.gp_regs[n as usize]
    }

    /// Writes `value` to general-purpose register `n` and sets the condition
    /// flag from the value written — never from the register's index.
    /// Immediately afterwards `condition_flags()` equals the classification
    /// of `value`, whatever `n` was.
    pub fn write_reg(&mut self, n: u16, value: u16)
        requires
            old(self).wf(),
            n < 8,
        ensures
            final(self).wf(),
            final(self)@ == old(self)@.with_reg_write(n, value),
            final(self)@.cond == spec_classify(value),
    {
        self.gp_regs[n as usize] = value;
        self.cond = classify(value);
    }

    /// Writes `value` to general-purpose register `n` without touching the
    /// condition flags: for the linkage write of JSR, which is not a
    /// flag-setting instruction.
    pub fn set_reg(&mut self, n: u16, value: u16)
        requires
            old(self).wf(),
            n < 8,
        ensures
            final(self).wf(),
            final(self)@ == old(self)@.with_reg_set(n, value),
    {
        self.gp_regs[n as usize] = value;
    }

    /// The current program counter.
    pub fn pc(&self) -> (r: u16)
        ensures
            r == self@.pc,
    {
        self.pc
    }

    /// Points the program counter at `addr`; memory, registers and the
    /// condition flag are untouched.
    pub fn set_pc(&mut self, addr: u16)
        ensures
            final(self)@ == old(self)@.with_pc(addr),
            final(self).wf() == old(self).wf(),
    {
        self.pc = addr;
    }

    /// Advances the program counter by one word, as the fetch of each cycle
    /// does, wrapping at the top of the address space.
    pub fn advance_pc(&mut self)
        ensures
            final(self)@ == old(self)@.with_pc(wrap_inc(old(self)@.pc)),
            final(self).wf() == old(self).wf(),
    {
        self.pc = if self.pc == 0xFFFF {
            0
        } else {
            self.pc + 1
        };
    }

    /// The current condition flag.
    pub fn condition_flags(&self) -> (r: CondFlag)
        ensures
            r == self@.cond,
    {
        self.cond
    }
}

/// A machine with zeroed memory and registers, the program counter at the
/// default origin, and the condition flag `Zero`.
impl Default for LC3 {
    fn default() -> (m: LC3)
        ensures
            m.wf(),
            forall|a: int| 0 <= a < MEM_SIZE ==> m@.mem[a] == 0,
            forall|i: int| 0 <= i < NUM_GP_REGS ==> m@.regs[i] == 0,
            m@.pc == PRGM_START_ADDR,
            m@.cond == CondFlag::Zero,
    {
        let mut memory: Vec<u16> = Vec::new();
        while memory.len() < MEM_SIZE
            invariant
                memory@.len() <= MEM_SIZE,
                forall|a: int| 0 <= a < memory@.len() ==> memory@[a] == 0,
            decreases MEM_SIZE - memory.len(),
        {
            memory.push(0);
        }
        LC3::new(PRGM_START_ADDR, memory)
    }
}

} // verus!
