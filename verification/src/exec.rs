//! Execution engine and run loop: one handler per opcode, each mutating the
//! machine state exactly as the architecture defines, and a driver that
//! repeats fetch-decode-execute cycles until a halting condition or a cycle
//! limit is reached. The intended behaviour of every instruction is written
//! down as a specification-level transition function, and each handler is
//! proved to implement it.

use vstd::prelude::*;

use crate::bits::{
    as_signed, get_immed_bit, get_reg, is_negative, sign_extend, spec_classify, CondFlag,
};
use crate::decode::{
    decode, f_dr, f_imm5, f_imm_bit, f_long_flag, f_off11, f_off6, f_off9, f_shf_amount,
    f_shf_mode, f_sr1, f_sr2, f_trap_vector, spec_opcode, Opcode,
};
use crate::machine::{wrap_inc, MachineView, LC3};

verus! {

/// A runtime fault. Both variants are terminal: the run loop transitions to
/// its halted state and reports them, never silently absorbs them.
#[derive(Clone, Copy, Debug, PartialEq, Eq, Structural)]
pub enum Fault {
    /// The reserved opcode slot was executed; carries the opcode value and
    /// the address of the faulting instruction.
    InvalidOpcode { opcode: u16, pc: u16 },
    /// An effective address fell outside the address space, rather than
    /// silently wrapping.
    AddressOutOfRange,
}

/// What a successfully executed instruction asks of the run loop: go on, or
/// a trap request carrying its 8-bit vector. With no trap hook supplied, a
/// trap halts the machine.
#[derive(Clone, Copy, Debug, PartialEq, Eq, Structural)]
pub enum Signal {
    Continue,
    Trap(u8),
}

/// How a run ended: halted by a trap (carrying its vector), stopped by a
/// runtime fault, or still running when the cycle limit was spent.
#[derive(Clone, Copy, Debug, PartialEq, Eq, Structural)]
pub enum RunOutcome {
    Halted(u8),
    Faulted(Fault),
    LimitReached,
}

/// A 16-bit result taken modulo 2^16, as the machine's two's-complement
/// arithmetic defines it.
pub open spec fn wrap16(x: int) -> u16 {
    (x % 0x10000) as u16
}

/// An effective address as an unbounded integer: the base plus the signed
/// reading of the sign-extended offset. Addresses are not wrapped; a result
/// outside the address space is a fault.
pub open spec fn target_addr(base: u16, off: u16) -> int {
    base + as_signed(off)
}

/// Whether a computed address lies inside the address space.
pub open spec fn addr_ok(a: int) -> bool {
    0 <= a < 0x10000
}

/// The second ALU operand of ADD and AND: the sign-extended 5-bit immediate
/// when the mode bit is set, else the second source register.
pub open spec fn spec_alu_operand(m: MachineView, i: u16) -> u16 {
    if f_imm_bit(i) == 1 {
        f_imm5(i)
    } else {
        m.regs[f_sr2(i) as int]
    }
}

/// ADD: the destination register receives the first source plus the second
/// operand, modulo 2^16; the condition flags are set from the result.
pub open spec fn spec_add(m: MachineView, i: u16) -> MachineView {
    m.with_reg_write(f_dr(i), wrap16(m.regs[f_sr1(i) as int] + spec_alu_operand(m, i)))
}

/// AND: as ADD, with bitwise AND in place of addition.
pub open spec fn spec_and(m: MachineView, i: u16) -> MachineView {
    m.with_reg_write(f_dr(i), m.regs[f_sr1(i) as int] & spec_alu_operand(m, i))
}

/// NOT: the destination register receives the bitwise complement of the
/// source; the condition flags are set from the result.
pub open spec fn spec_not(m: MachineView, i: u16) -> MachineView {
    m.with_reg_write(f_dr(i), !m.regs[f_sr1(i) as int])
}

/// The value a shift produces: left-logical when the direction bit is
/// clear; otherwise right-logical or, when the arithmetic bit is also set,
/// right-arithmetic, which copies the sign bit into the vacated positions.
pub open spec fn spec_shf_val(v: u16, mode: u16, amt: u16) -> u16
    recommends
        mode < 4,
        amt < 16,
{
    if mode & 1 == 0 {
        v << amt
    } else if mode == 1 {
        v >> amt
    } else if amt == 0 {
        v
    } else if v >= 0x8000 {
        (v >> amt) | (0xFFFFu16 << ((16 - amt) as u16))
    } else {
        v >> amt
    }
}

/// SHF: the destination register receives the shifted source; the condition
/// flags are set from the result.
pub open spec fn spec_shf(m: MachineView, i: u16) -> MachineView {
    m.with_reg_write(
        f_dr(i),
        spec_shf_val(m.regs[f_sr1(i) as int], f_shf_mode(i), f_shf_amount(i)),
    )
}

/// JMP: the program counter receives the base register's value. The
/// condition flags are untouched.
pub open spec fn spec_jmp(m: MachineView, i: u16) -> MachineView {
    m.with_pc(m.regs[f_sr1(i) as int])
}

/// Whether a branch is taken: the instruction's n, z or p bit (bits 11, 10
/// and 9) asserts the state the condition-code register currently holds.
pub open spec fn br_taken(cond: CondFlag, i: u16) -> bool {
    ||| ((i >> 11) & 1 == 1 && cond == CondFlag::Negative)
    ||| ((i >> 10) & 1 == 1 && cond == CondFlag::Zero)
    ||| ((i >> 9) & 1 == 1 && cond == CondFlag::Positive)
}

/// BR: when a condition bit matches the current flag, the program counter
/// receives the PC-relative target; otherwise the instruction is a no-op
/// and the program counter stays where the fetch advance left it.
pub open spec fn spec_br(m: MachineView, i: u16) -> (MachineView, Result<(), Fault>) {
    if br_taken(m.cond, i) {
        let a = target_addr(m.pc, f_off9(i));
        if addr_ok(a) {
            (m.with_pc(a as u16), Ok(()))
        } else {
            (m, Err(Fault::AddressOutOfRange))
        }
    } else {
        (m, Ok(()))
    }
}

/// JSR and JSRR: register 7 receives the return address (the program
/// counter already advanced past this instruction), then the program
/// counter receives the PC-relative target (long form) or the base
/// register's value. The condition flags are untouched.
pub open spec fn spec_jsr(m: MachineView, i: u16) -> (MachineView, Result<(), Fault>) {
    if f_long_flag(i) == 1 {
        let a = target_addr(m.pc, f_off11(i));
        if addr_ok(a) {
            (m.with_reg_set(7, m.pc).with_pc(a as u16), Ok(()))
        } else {
            (m, Err(Fault::AddressOutOfRange))
        }
    } else {
        let linked = m.with_reg_set(7, m.pc);
        (linked.with_pc(linked.regs[f_sr1(i) as int]), Ok(()))
    }
}

/// LD: the destination register receives the word at the PC-relative
/// address; the condition flags are set from it.
pub open spec fn spec_ld(m: MachineView, i: u16) -> (MachineView, Result<(), Fault>) {
    let a = target_addr(m.pc, f_off9(i));
    if addr_ok(a) {
        (m.with_reg_write(f_dr(i), m.mem[a]), Ok(()))
    } else {
        (m, Err(Fault::AddressOutOfRange))
    }
}

/// LDI: the word at the PC-relative address holds the address of the
/// operand; the destination register receives the operand and the condition
/// flags are set from it.
pub open spec fn spec_ldi(m: MachineView, i: u16) -> (MachineView, Result<(), Fault>) {
    let a = target_addr(m.pc, f_off9(i));
    if addr_ok(a) {
        (m.with_reg_write(f_dr(i), m.mem[m.mem[a] as int]), Ok(()))
    } else {
        (m, Err(Fault::AddressOutOfRange))
    }
}

/// LDR: the destination register receives the word at the base register
/// plus the sign-extended 6-bit offset; the condition flags are set from it.
pub open spec fn spec_ldr(m: MachineView, i: u16) -> (MachineView, Result<(), Fault>) {
    let a = target_addr(m.regs[f_sr1(i) as int], f_off6(i));
    if addr_ok(a) {
        (m.with_reg_write(f_dr(i), m.mem[a]), Ok(()))
    } else {
        (m, Err(Fault::AddressOutOfRange))
    }
}

/// ST: the word at the PC-relative address receives the source register.
/// No flag update.
pub open spec fn spec_st(m: MachineView, i: u16) -> (MachineView, Result<(), Fault>) {
    let a = target_addr(m.pc, f_off9(i));
    if addr_ok(a) {
        (m.with_mem_write(a as u16, m.regs[f_dr(i) as int]), Ok(()))
    } else {
        (m, Err(Fault::AddressOutOfRange))
    }
}

/// STI: the word at the PC-relative address holds the destination address;
/// the word there receives the source register. No flag update.
pub open spec fn spec_sti(m: MachineView, i: u16) -> (MachineView, Result<(), Fault>) {
    let a = target_addr(m.pc, f_off9(i));
    if addr_ok(a) {
        (m.with_mem_write(m.mem[a], m.regs[f_dr(i) as int]), Ok(()))
    } else {
        (m, Err(Fault::AddressOutOfRange))
    }
}

/// STR: the word at the base register plus the sign-extended 6-bit offset
/// receives the source register. No flag update.
pub open spec fn spec_str(m: MachineView, i: u16) -> (MachineView, Result<(), Fault>) {
    let a = target_addr(m.regs[f_sr1(i) as int], f_off6(i));
    if addr_ok(a) {
        (m.with_mem_write(a as u16, m.regs[f_dr(i) as int]), Ok(()))
    } else {
        (m, Err(Fault::AddressOutOfRange))
    }
}

/// LEA: the destination register receives the PC-relative address itself —
/// no memory access — and the condition flags are set from it.
pub open spec fn spec_lea(m: MachineView, i: u16) -> (MachineView, Result<(), Fault>) {
    let a = target_addr(m.pc, f_off9(i));
    if addr_ok(a) {
        (m.with_reg_write(f_dr(i), a as u16), Ok(()))
    } else {
        (m, Err(Fault::AddressOutOfRange))
    }
}

/// Lifts a handler's outcome into a step outcome: success means the run
/// goes on.
pub open spec fn step_of(t: (MachineView, Result<(), Fault>)) -> (MachineView, Result<
    Signal,
    Fault,
>) {
    match t.1 {
        Ok(_) => (t.0, Ok(Signal::Continue)),
        Err(f) => (t.0, Err(f)),
    }
}

/// One fetch-decode-execute cycle on the machine model: the word at the
/// program counter is fetched, the program counter advances one word, and
/// the instruction's transition is applied. A trap carries its vector out;
/// the reserved opcode faults with the opcode value and the address it was
/// fetched from; a fault leaves registers, memory and flags untouched.
pub open spec fn spec_step(m: MachineView) -> (MachineView, Result<Signal, Fault>)
    recommends
        m.wf(),
{
    let instr = m.mem[m.pc as int];
    let m1 = m.with_pc(wrap_inc(m.pc));
    match spec_opcode(instr) {
        Opcode::Br => step_of(spec_br(m1, instr)),
        Opcode::Add => (spec_add(m1, instr), Ok(Signal::Continue)),
        Opcode::Ld => step_of(spec_ld(m1, instr)),
        Opcode::St => step_of(spec_st(m1, instr)),
        Opcode::Jsr => step_of(spec_jsr(m1, instr)),
        Opcode::And => (spec_and(m1, instr), Ok(Signal::Continue)),
        Opcode::Ldr => step_of(spec_ldr(m1, instr)),
        Opcode::Str => step_of(spec_str(m1, instr)),
        Opcode::Not => (spec_not(m1, instr), Ok(Signal::Continue)),
        Opcode::Ldi => step_of(spec_ldi(m1, instr)),
        Opcode::Sti => step_of(spec_sti(m1, instr)),
        Opcode::Jmp => (spec_jmp(m1, instr), Ok(Signal::Continue)),
        Opcode::Shf => (spec_shf(m1, instr), Ok(Signal::Continue)),
        Opcode::Lea => step_of(spec_lea(m1, instr)),
        Opcode::Trap => (m1, Ok(Signal::Trap(f_trap_vector(instr)))),
        Opcode::Invalid => (m1, Err(Fault::InvalidOpcode { opcode: instr >> 12, pc: m.pc })),
    }
}

/// Up to `fuel` cycles on the machine model, stopping early on a trap (the
/// default trap behaviour: halt for every vector) or on a fault. With the
/// fuel spent and the machine still running, the outcome is
/// `LimitReached`.
pub open spec fn spec_run(m: MachineView, fuel: nat) -> (MachineView, RunOutcome)
    recommends
        m.wf(),
    decreases fuel,
{
    if fuel == 0 {
        (m, RunOutcome::LimitReached)
    } else {
        let stepped = spec_step(m);
        match stepped.1 {
            Ok(Signal::Continue) => spec_run(stepped.0, (fuel - 1) as nat),
            Ok(Signal::Trap(v)) => (stepped.0, RunOutcome::Halted(v)),
            Err(f) => (stepped.0, RunOutcome::Faulted(f)),
        }
    }
}

/// A branch whose condition bits match the current flag executes the
/// offset jump; one with no match changes nothing but the fetch advance, so
/// the program counter moves by exactly one word and no more.
pub proof fn lemma_br_step(m: MachineView)
    requires
        m.wf(),
        spec_opcode(m.mem[m.pc as int]) == Opcode::Br,
    ensures
        ({
            let instr = m.mem[m.pc as int];
            let pc1 = wrap_inc(m.pc);
            &&& !br_taken(m.cond, instr) ==> spec_step(m) == (
                m.with_pc(pc1),
                Ok::<Signal, Fault>(Signal::Continue),
            )
            &&& br_taken(m.cond, instr) && addr_ok(target_addr(pc1, f_off9(instr)))
                ==> spec_step(m) == (
                m.with_pc(target_addr(pc1, f_off9(instr)) as u16),
                Ok::<Signal, Fault>(Signal::Continue),
            )
        }),
{
}

/// Executing the reserved opcode stops the machine with an invalid-opcode
/// fault that reports the faulting address and opcode, and leaves
/// registers, memory and the condition flag untouched.
pub proof fn lemma_invalid_opcode_faults(m: MachineView, fuel: nat)
    requires
        m.wf(),
        spec_opcode(m.mem[m.pc as int]) == Opcode::Invalid,
        fuel >= 1,
    ensures
        spec_step(m).0 == m.with_pc(wrap_inc(m.pc)),
        spec_step(m).1 == Err::<Signal, Fault>(
            Fault::InvalidOpcode { opcode: m.mem[m.pc as int] >> 12, pc: m.pc },
        ),
        spec_run(m, fuel) == (
            m.with_pc(wrap_inc(m.pc)),
            RunOutcome::Faulted(Fault::InvalidOpcode { opcode: m.mem[m.pc as int] >> 12, pc: m.pc }),
        ),
{
}

/// An all-zero instruction word decodes as a branch with no condition bits
/// asserted, which is a defined no-op: the machine does not fault, and only
/// the program counter moves, by one word.
pub proof fn lemma_zero_word_noop(m: MachineView)
    requires
        m.wf(),
        m.mem[m.pc as int] == 0,
    ensures
        spec_step(m) == (m.with_pc(wrap_inc(m.pc)), Ok::<Signal, Fault>(Signal::Continue)),
{
    assert(0u16 >> 12 == 0) by (bit_vector);
    assert((0u16 >> 11) & 1 == 0 && (0u16 >> 10) & 1 == 0 && (0u16 >> 9) & 1 == 0)
        by (bit_vector);
}

/// Running through zero-initialized memory never halts and never faults:
/// whatever the cycle limit, the outcome is `LimitReached`. The limit is
/// the safety valve for a program that runs past its last instruction.
pub proof fn lemma_zero_memory_runs_to_limit(m: MachineView, fuel: nat)
    requires
        m.wf(),
        forall|a: int| 0 <= a < m.mem.len() ==> m.mem[a] == 0,
    ensures
        spec_run(m, fuel).1 == RunOutcome::LimitReached,
    decreases fuel,
{
    if fuel > 0 {
        lemma_zero_word_noop(m);
        lemma_zero_memory_runs_to_limit(m.with_pc(wrap_inc(m.pc)), (fuel - 1) as nat);
    }
}

/// Computes `base` plus the signed reading of the sign-extended offset
/// `off`, faulting when the result leaves the address space instead of
/// wrapping silently.
fn checked_addr(base: u16, off: u16) -> (r: Result<u16, Fault>)
    ensures
        addr_ok(target_addr(base, off)) ==> r == Ok::<u16, Fault>(target_addr(base, off) as u16),
        !addr_ok(target_addr(base, off)) ==> r == Err::<u16, Fault>(Fault::AddressOutOfRange),
{
    let signed: i32 = if off >= 0x8000 {
        off as i32 - 0x10000
    } else {
        off as i32
    };
    let t: i32 = base as i32 + signed;
    if t >= 0 && t <= 0xFFFF {
        Ok(t as u16)
    } else {
        Err(Fault::AddressOutOfRange)
    }
}

impl LC3 {
    /// ADD: sums the first source register with the sign-extended immediate
    /// or the second source register, modulo 2^16.
    pub fn add(&mut self, instr: u16)
        requires
            old(self).wf(),
        ensures
            final(self).wf(),
            final(self)@ == spec_add(old(self)@, instr),
    {
        let dest_reg = get_reg(instr, 9);
        let op1_reg = get_reg(instr, 6);
        let op1 = self.read_reg(op1_reg);
        let op2 = self.alu_operand(instr);
        let sum = (((op1 as u32) + (op2 as u32)) % 0x10000) as u16;
        self.write_reg(dest_reg, sum);
    }

    /// AND: bitwise AND of the first source register with the immediate or
    /// second source register.
    pub fn and(&mut self, instr: u16)
        requires
            old(self).wf(),
        ensures
            final(self).wf(),
            final(self)@ == spec_and(old(self)@, instr),
    {
        let dest_reg = get_reg(instr, 9);
        let op1_reg = get_reg(instr, 6);
        let op1 = self.read_reg(op1_reg);
        let op2 = self.alu_operand(instr);
        self.write_reg(dest_reg, op1 & op2);
    }

    /// NOT: bitwise complement of the source register.
    pub fn not(&mut self, instr: u16)
        requires
            old(self).wf(),
        ensures
            final(self).wf(),
            final(self)@ == spec_not(old(self)@, instr),
    {
        let dest_reg = get_reg(instr, 9);
        let op1_reg = get_reg(instr, 6);
        let v = self.read_reg(op1_reg);
        self.write_reg(dest_reg, !v);
    }

    /// SHF: shifts the source register by the 4-bit amount, in the direction
    /// and kind the mode field selects.
    pub fn shf(&mut self, instr: u16)
        requires
            old(self).wf(),
        ensures
            final(self).wf(),
            final(self)@ == spec_shf(old(self)@, instr),
    {
        let dest_reg = get_reg(instr, 9);
        let src_reg = get_reg(instr, 6);
        let v = self.read_reg(src_reg);
        let mode = (instr >> 4) & 0x3;
        let amount = instr & 0xF;
        proof {
            assert((instr >> 4) & 0x3 < 4 && instr & 0xF < 16) by (bit_vector);
        }
        let shifted: u16 = if mode & 1 == 0 {
            v << amount
        } else if mode == 1 {
            v >> amount
        } else if amount == 0 {
            v
        } else if is_negative(v) {
            (v >> amount) | (0xFFFF << (16 - amount))
        } else {
            v >> amount
        };
        self.write_reg(dest_reg, shifted);
    }

    /// JMP: jumps to the address in the base register. A base register of 7
    /// is the conventional subroutine return.
    pub fn jmp(&mut self, instr: u16)
        requires
            old(self).wf(),
        ensures
            final(self).wf(),
            final(self)@ == spec_jmp(old(self)@, instr),
    {
        let offset_reg = get_reg(instr, 6);
        let target = self.read_reg(offset_reg);
        self.set_pc(target);
    }

    /// BR: jumps to the PC-relative target when a condition bit of the
    /// instruction matches the current flag; otherwise does nothing beyond
    /// the fetch advance.
    pub fn br(&mut self, instr: u16) -> (r: Result<(), Fault>)
        requires
            old(self).wf(),
        ensures
            final(self).wf(),
            final(self)@ == spec_br(old(self)@, instr).0,
            r == spec_br(old(self)@, instr).1,
    {
        let n = (instr >> 11) & 1;
        let z = (instr >> 10) & 1;
        let p = (instr >> 9) & 1;
        let cond = self.condition_flags();
        let taken = (n == 1 && cond == CondFlag::Negative) || (z == 1 && cond == CondFlag::Zero)
            || (p == 1 && cond == CondFlag::Positive);
        if !taken {
            return Ok(());
        }
        let pc_offset = sign_extend(instr & 0x1FF, 9);
        match checked_addr(self.pc(), pc_offset) {
            Ok(a) => {
                self.set_pc(a);
                Ok(())
            },
            Err(f) => Err(f),
        }
    }

    /// JSR and JSRR: saves the return address in register 7, then jumps
    /// PC-relative (long form) or through the base register.
    pub fn jsr(&mut self, instr: u16) -> (r: Result<(), Fault>)
        requires
            old(self).wf(),
        ensures
            final(self).wf(),
            final(self)@ == spec_jsr(old(self)@, instr).0,
            r == spec_jsr(old(self)@, instr).1,
    {
        let long_flag = (instr >> 11) & 1;
        if long_flag == 1 {
            let long_pc_offset = sign_extend(instr & 0x7FF, 11);
            match checked_addr(self.pc(), long_pc_offset) {
                Ok(a) => {
                    let link = self.pc();
                    self.set_reg(7, link);
                    self.set_pc(a);
                    Ok(())
                },
                Err(f) => Err(f),
            }
        } else {
            let link = self.pc();
            self.set_reg(7, link);
            let op1_reg = get_reg(instr, 6);
            let target = self.read_reg(op1_reg);
            self.set_pc(target);
            Ok(())
        }
    }

    /// LD: loads the destination register from the PC-relative address.
    pub fn ld(&mut self, instr: u16) -> (r: Result<(), Fault>)
        requires
            old(self).wf(),
        ensures
            final(self).wf(),
            final(self)@ == spec_ld(old(self)@, instr).0,
            r == spec_ld(old(self)@, instr).1,
    {
        let dest_reg = get_reg(instr, 9);
        let pc_offset = sign_extend(instr & 0x1FF, 9);
        match checked_addr(self.pc(), pc_offset) {
            Ok(a) => {
                let v = self.read_mem(a);
                self.write_reg(dest_reg, v);
                Ok(())
            },
            Err(f) => Err(f),
        }
    }

    /// LDI: loads the destination register through the address stored at
    /// the PC-relative address.
    pub fn ldi(&mut self, instr: u16) -> (r: Result<(), Fault>)
        requires
            old(self).wf(),
        ensures
            final(self).wf(),
            final(self)@ == spec_ldi(old(self)@, instr).0,
            r == spec_ldi(old(self)@, instr).1,
    {
        let dest_reg = get_reg(instr, 9);
        let pc_offset = sign_extend(instr & 0x1FF, 9);
        match checked_addr(self.pc(), pc_offset) {
            Ok(a) => {
                let indirect = self.read_mem(a);
                let v = self.read_mem(indirect);
                self.write_reg(dest_reg, v);
                Ok(())
            },
            Err(f) => Err(f),
        }
    }

    /// LDR: loads the destination register from the base register plus the
    /// sign-extended 6-bit offset.
    pub fn ldr(&mut self, instr: u16) -> (r: Result<(), Fault>)
        requires
            old(self).wf(),
        ensures
            final(self).wf(),
            final(self)@ == spec_ldr(old(self)@, instr).0,
            r == spec_ldr(old(self)@, instr).1,
    {
        let dest_reg = get_reg(instr, 9);
        let base_reg = get_reg(instr, 6);
        let base = self.read_reg(base_reg);
        let offset = sign_extend(instr & 0x3F, 6);
        match checked_addr(base, offset) {
            Ok(a) => {
                let v = self.read_mem(a);
                self.write_reg(dest_reg, v);
                Ok(())
            },
            Err(f) => Err(f),
        }
    }

    /// ST: stores the source register at the PC-relative address.
    pub fn st(&mut self, instr: u16) -> (r: Result<(), Fault>)
        requires
            old(self).wf(),
        ensures
            final(self).wf(),
            final(self)@ == spec_st(old(self)@, instr).0,
            r == spec_st(old(self)@, instr).1,
    {
        let src_reg = get_reg(instr, 9);
        let pc_offset = sign_extend(instr & 0x1FF, 9);
        match checked_addr(self.pc(), pc_offset) {
            Ok(a) => {
                let v = self.read_reg(src_reg);
                self.write_mem(a, v);
                Ok(())
            },
            Err(f) => Err(f),
        }
    }

    /// STI: stores the source register through the address stored at the
    /// PC-relative address.
    pub fn sti(&mut self, instr: u16) -> (r: Result<(), Fault>)
        requires
            old(self).wf(),
        ensures
            final(self).wf(),
            final(self)@ == spec_sti(old(self)@, instr).0,
            r == spec_sti(old(self)@, instr).1,
    {
        let src_reg = get_reg(instr, 9);
        let pc_offset = sign_extend(instr & 0x1FF, 9);
        match checked_addr(self.pc(), pc_offset) {
            Ok(a) => {
                let indirect = self.read_mem(a);
                let v = self.read_reg(src_reg);
                self.write_mem(indirect, v);
                Ok(())
            },
            Err(f) => Err(f),
        }
    }

    /// STR: stores the source register at the base register plus the
    /// sign-extended 6-bit offset.
    pub fn str_op(&mut self, instr: u16) -> (r: Result<(), Fault>)
        requires
            old(self).wf(),
        ensures
            final(self).wf(),
            final(self)@ == spec_str(old(self)@, instr).0,
            r == spec_str(old(self)@, instr).1,
    {
        let src_reg = get_reg(instr, 9);
        let base_reg = get_reg(instr, 6);
        let base = self.read_reg(base_reg);
        let offset = sign_extend(instr & 0x3F, 6);
        match checked_addr(base, offset) {
            Ok(a) => {
                let v = self.read_reg(src_reg);
                self.write_mem(a, v);
                Ok(())
            },
            Err(f) => Err(f),
        }
    }

    /// LEA: loads the destination register with the PC-relative address
    /// itself.
    pub fn lea(&mut self, instr: u16) -> (r: Result<(), Fault>)
        requires
            old(self).wf(),
        ensures
            final(self).wf(),
            final(self)@ == spec_lea(old(self)@, instr).0,
            r == spec_lea(old(self)@, instr).1,
    {
        let dest_reg = get_reg(instr, 9);
        let pc_offset = sign_extend(instr & 0x1FF, 9);
        match checked_addr(self.pc(), pc_offset) {
            Ok(a) => {
                self.write_reg(dest_reg, a);
                Ok(())
            },
            Err(f) => Err(f),
        }
    }

    /// One fetch-decode-execute cycle: fetches the word at the program
    /// counter, advances the program counter one word, and dispatches on the
    /// decoded opcode. Returns the instruction's signal, or the fault that
    /// stopped it.
    pub fn step(&mut self) -> (r: Result<Signal, Fault>)
        requires
            old(self).wf(),
        ensures
            final(self).wf(),
            final(self)@ == spec_step(old(self)@).0,
            r == spec_step(old(self)@).1,
    {
        let pc0 = self.pc();
        let instr = self.fetch();
        self.advance_pc();
        match decode(instr) {
            Opcode::Br => match self.br(instr) {
                Ok(_) => Ok(Signal::Continue),
                Err(f) => Err(f),
            },
            Opcode::Add => {
                self.add(instr);
                Ok(Signal::Continue)
            },
            Opcode::Ld => match self.ld(instr) {
                Ok(_) => Ok(Signal::Continue),
                Err(f) => Err(f),
            },
            Opcode::St => match self.st(instr) {
                Ok(_) => Ok(Signal::Continue),
                Err(f) => Err(f),
            },
            Opcode::Jsr => match self.jsr(instr) {
                Ok(_) => Ok(Signal::Continue),
                Err(f) => Err(f),
            },
            Opcode::And => {
                self.and(instr);
                Ok(Signal::Continue)
            },
            Opcode::Ldr => match self.ldr(instr) {
                Ok(_) => Ok(Signal::Continue),
                Err(f) => Err(f),
            },
            Opcode::Str => match self.str_op(instr) {
                Ok(_) => Ok(Signal::Continue),
                Err(f) => Err(f),
            },
            Opcode::Not => {
                self.not(instr);
                Ok(Signal::Continue)
            },
            Opcode::Ldi => match self.ldi(instr) {
                Ok(_) => Ok(Signal::Continue),
                Err(f) => Err(f),
            },
            Opcode::Sti => match self.sti(instr) {
                Ok(_) => Ok(Signal::Continue),
                Err(f) => Err(f),
            },
            Opcode::Jmp => {
                self.jmp(instr);
                Ok(Signal::Continue)
            },
            Opcode::Shf => {
                self.shf(instr);
                Ok(Signal::Continue)
            },
            Opcode::Lea => match self.lea(instr) {
                Ok(_) => Ok(Signal::Continue),
                Err(f) => Err(f),
            },
            Opcode::Trap => Ok(Signal::Trap((instr & 0xFF) as u8)),
            Opcode::Invalid => Err(Fault::InvalidOpcode { opcode: instr >> 12, pc: pc0 }),
        }
    }

    /// Drives fetch-decode-execute cycles until a trap halts the machine
    /// (the default behaviour for every trap vector), a fault stops it, or
    /// `cycle_limit` cycles have run — the safety valve for programs that
    /// never halt.
    pub fn run(&mut self, cycle_limit: u64) -> (r: RunOutcome)
        requires
            old(self).wf(),
        ensures
            final(self).wf(),
            final(self)@ == spec_run(old(self)@, cycle_limit as nat).0,
            r == spec_run(old(self)@, cycle_limit as nat).1,
    {
        let ghost m0 = self@;
        let mut steps: u64 = 0;
        while steps < cycle_limit
            invariant
                self.wf(),
                steps <= cycle_limit,
                m0 == old(self)@,
                spec_run(m0, cycle_limit as nat) == spec_run(
                    self@,
                    (cycle_limit - steps) as nat,
                ),
            decreases cycle_limit - steps,
        {
            let ghost pre = self@;
            let ghost rem = (cycle_limit - steps) as nat;
            match self.step() {
                Ok(Signal::Continue) => {
                    proof {
                        assert(spec_run(pre, rem) == spec_run(self@, (rem - 1) as nat));
                    }
                },
                Ok(Signal::Trap(v)) => {
                    proof {
                        assert(spec_run(pre, rem) == (self@, RunOutcome::Halted(v)));
                    }
                    return RunOutcome::Halted(v);
                },
                Err(f) => {
                    proof {
                        assert(spec_run(pre, rem) == (self@, RunOutcome::Faulted(f)));
                    }
                    return RunOutcome::Faulted(f);
                },
            }
            steps = steps + 1;
        }
        RunOutcome::LimitReached
    }

    /// The second ALU operand of ADD and AND, selected by the mode bit.
    fn alu_operand(&self, instr: u16) -> (r: u16)
        requires
            self.wf(),
        ensures
            r == spec_alu_operand(self@, instr),
    {
        if get_immed_bit(instr) == 1 {
            sign_extend(instr & 0x1F, 5)
        } else {
            let op2_reg = get_reg(instr, 0);
            proof {
                assert((instr >> 0) & 7 == instr & 7) by (bit_vector);
            }
            self.read_reg(op2_reg)
        }
    }
}

} // verus!

