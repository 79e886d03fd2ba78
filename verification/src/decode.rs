//! Decoder: extracts the opcode and operand fields from a fetched 16-bit
//! instruction word. Decoding is stateless and has no failure mode; the one
//! reserved encoding is reported explicitly as `Opcode::Invalid`.

use vstd::prelude::*;

use crate::bits::sext16;

verus! {

/// The sixteen opcode slots of the architecture, decoded from the top four
/// bits of an instruction word. The reserved slot is represented explicitly
/// as `Invalid`, never as an implicit default.
#[derive(Clone, Copy, Debug, PartialEq, Eq, Structural)]
pub enum Opcode {
    /// Conditional branch.
    Br,
    /// Addition.
    Add,
    /// Load, PC-relative.
    Ld,
    /// Store, PC-relative.
    St,
    /// Jump to subroutine, PC-relative or through a base register.
    Jsr,
    /// Bitwise AND.
    And,
    /// Load, base register plus offset.
    Ldr,
    /// Store, base register plus offset.
    Str,
    /// Bitwise complement.
    Not,
    /// Load indirect.
    Ldi,
    /// Store indirect.
    Sti,
    /// Unconditional jump through a base register.
    Jmp,
    /// Shift.
    Shf,
    /// Load effective address.
    Lea,
    /// Trap: request a system service.
    Trap,
    /// The reserved opcode slot: executing it is a fault.
    Invalid,
}

/// The opcode an instruction word decodes to, from its top four bits.
pub open spec fn spec_opcode(instr: u16) -> Opcode {
    let op = instr >> 12;
    if op == 0 {
        Opcode::Br
    } else if op == 1 {
        Opcode::Add
    } else if op == 2 {
        Opcode::Ld
    } else if op == 3 {
        Opcode::St
    } else if op == 4 {
        Opcode::Jsr
    } else if op == 5 {
        Opcode::And
    } else if op == 6 {
        Opcode::Ldr
    } else if op == 7 {
        Opcode::Str
    } else if op == 8 {
        Opcode::Invalid
    } else if op == 9 {
        Opcode::Not
    } else if op == 10 {
        Opcode::Ldi
    } else if op == 11 {
        Opcode::Sti
    } else if op == 12 {
        Opcode::Jmp
    } else if op == 13 {
        Opcode::Shf
    } else if op == 14 {
        Opcode::Lea
    } else {
        Opcode::Trap
    }
}

/// The destination (or, for stores, source) register field, bits 11..9.
pub open spec fn f_dr(instr: u16) -> u16 {
    (instr >> 9) & 7
}

/// The first source register field, bits 8..6; also the base register field
/// of JMP, JSRR, LDR and STR.
pub open spec fn f_sr1(instr: u16) -> u16 {
    (instr >> 6) & 7
}

/// The second source register field, bits 2..0.
pub open spec fn f_sr2(instr: u16) -> u16 {
    instr & 7
}

/// The addressing-mode bit of ADD and AND, bit 5: set selects the immediate
/// form.
pub open spec fn f_imm_bit(instr: u16) -> u16 {
    (instr >> 5) & 1
}

/// The 5-bit immediate of ADD and AND, sign-extended.
pub open spec fn f_imm5(instr: u16) -> u16 {
    sext16(instr & 0x1F, 5)
}

/// The 6-bit offset of LDR and STR, sign-extended.
pub open spec fn f_off6(instr: u16) -> u16 {
    sext16(instr & 0x3F, 6)
}

/// The 9-bit PC-relative offset of BR, LD, LDI, ST, STI and LEA,
/// sign-extended.
pub open spec fn f_off9(instr: u16) -> u16 {
    sext16(instr & 0x1FF, 9)
}

/// The 11-bit PC-relative offset of the long form of JSR, sign-extended.
pub open spec fn f_off11(instr: u16) -> u16 {
    sext16(instr & 0x7FF, 11)
}

/// The long-form flag of JSR, bit 11: set selects the PC-relative form.
pub open spec fn f_long_flag(instr: u16) -> u16 {
    (instr >> 11) & 1
}

/// The 8-bit trap vector, bits 7..0.
pub open spec fn f_trap_vector(instr: u16) -> u8 {
    (instr & 0xFF) as u8
}

/// The shift-mode field of SHF, bits 5..4: bit 4 selects right over left,
/// bit 5 selects arithmetic over logical for right shifts.
pub open spec fn f_shf_mode(instr: u16) -> u16 {
    (instr >> 4) & 3
}

/// The 4-bit shift amount of SHF, bits 3..0.
pub open spec fn f_shf_amount(instr: u16) -> u16 {
    instr & 0xF
}

/// Decodes the opcode field of an instruction word.
pub fn decode(instr: u16) -> (op: Opcode)
    ensures
        op == spec_opcode(instr),
{
    let code = instr >> 12;
    proof {
        assert(instr >> 12 < 16) by (bit_vector);
    }
    match code {
        0 => Opcode::Br,
        1 => Opcode::Add,
        2 => Opcode::Ld,
        3 => Opcode::St,
        4 => Opcode::Jsr,
        5 => Opcode::And,
        6 => Opcode::Ldr,
        7 => Opcode::Str,
        8 => Opcode::Invalid,
        9 => Opcode::Not,
        10 => Opcode::Ldi,
        11 => Opcode::Sti,
        12 => Opcode::Jmp,
        13 => Opcode::Shf,
        14 => Opcode::Lea,
        _ => Opcode::Trap,
    }
}

} // verus!
