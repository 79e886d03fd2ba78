//! Bit-field utilities: sign extension, field extraction, byte assembly, and
//! condition-flag classification. All pure functions on 16-bit words.

use vstd::prelude::*;

verus! {

/// The condition-code register holds exactly one of these three states,
/// reflecting the sign of the last value written to a general-purpose
/// register by a flag-setting instruction.
#[derive(Clone, Copy, Debug, PartialEq, Eq, Structural)]
pub enum CondFlag {
    Negative,
    Zero,
    Positive,
}

/// The flag a 16-bit value classifies to: `Zero` iff the value is zero,
/// `Negative` iff its high bit (bit 15) is set, `Positive` otherwise.
pub open spec fn spec_classify(v: u16) -> CondFlag {
    if v == 0 {
        CondFlag::Zero
    } else if v >= 0x8000 {
        CondFlag::Negative
    } else {
        CondFlag::Positive
    }
}

/// The low `w` bits of `v` sign-extended to 16 bits: if bit `w - 1` of `v`
/// is set, all bits at and above `w` come out set; otherwise `v` is returned
/// unchanged.
pub open spec fn sext16(v: u16, w: u16) -> u16
    recommends
        1 <= w <= 15,
{
    if (v >> ((w - 1) as u16)) & 1 == 1 {
        v | (0xFFFFu16 << w)
    } else {
        v
    }
}

/// The two's-complement reading of a 16-bit pattern, in [-32768, 32767].
pub open spec fn as_signed(v: u16) -> int {
    if v >= 0x8000 {
        v - 0x10000
    } else {
        v as int
    }
}

/// Whether the 16-bit pattern reads as negative in two's complement,
/// i.e. whether bit 15 is set.
pub fn is_negative(value: u16) -> (r: bool)
    ensures
        r == (value >= 0x8000),
{
    let r = (value >> 15) == 1;
    proof {
        assert((value >> 15) == 1 <==> value >= 0x8000) by (bit_vector);
    }
    r
}

/// Assembles a 16-bit word from two bytes, the first byte high (big-endian).
pub fn get_as_u16(upper_byte: u8, lower_byte: u8) -> (r: u16)
    ensures
        r == upper_byte * 256 + lower_byte,
{
    let r = ((upper_byte as u16) << 8) | lower_byte as u16;
    proof {
        assert(((upper_byte as u16) << 8) | lower_byte as u16 == upper_byte * 256
            + lower_byte) by (bit_vector);
    }
    r
}

/// The addressing-mode bit of an instruction word (bit 5), which selects
/// between the immediate and register forms of ADD and AND.
pub fn get_immed_bit(instr: u16) -> (r: u16)
    ensures
        r == (instr >> 5) & 1,
{
    (instr >> 5) & 0x1
}

/// The 3-bit register number starting at bit `shift` of an instruction word.
pub fn get_reg(instr: u16, shift: u16) -> (r: u16)
    requires
        shift < 16,
    ensures
        r == (instr >> shift) & 7,
        r < 8,
{
    let r = (instr >> shift) & 0x7;
    proof {
        assert((instr >> shift) & 0x7 < 8) by (bit_vector);
    }
    r
}

/// Treats the low `num_bits` bits of `register` as a two's-complement signed
/// field and extends its sign bit through the full 16-bit word.
pub fn sign_extend(register: u16, num_bits: u8) -> (r: u16)
    requires
        1 <= num_bits <= 15,
    ensures
        r == sext16(register, num_bits as u16),
{
    if ((register >> (num_bits - 1) as u16) & 1) == 1 {
        register | (0xFFFF << num_bits as u16)
    } else {
        register
    }
}

/// Classifies a 16-bit value into the condition flag it sets: `Zero` for
/// zero, `Negative` when bit 15 is set, `Positive` otherwise. This is the
/// sole source of truth for condition-flag updates.
pub fn classify(value: u16) -> (r: CondFlag)
    ensures
        r == spec_classify(value),
{
    if value == 0 {
        CondFlag::Zero
    } else if is_negative(value) {
        CondFlag::Negative
    } else {
        CondFlag::Positive
    }
}

/// Replaces `cond` with the flag classified from `register_val`, the value
/// just written to a register — never from the register's index.
pub fn update_flags(register_val: u16, cond: &mut CondFlag)
    ensures
        *final(cond) == spec_classify(register_val),
{
    *cond = classify(register_val);
}

/// Sign extension round-trips: for every field width and every value that
/// fits in the field, a value whose top field bit is clear comes back
/// unchanged, and a value whose top field bit is set comes back with all
/// upper bits set.
pub proof fn lemma_sign_extend_round_trip(v: u16, w: u16)
    requires
        1 <= w <= 15,
        v < (1u16 << w),
    ensures
        (v >> ((w - 1) as u16)) & 1 == 0 ==> sext16(v, w) == v,
        (v >> ((w - 1) as u16)) & 1 == 1 ==> sext16(v, w) >> w == 0xFFFFu16 >> w,
{
    if (v >> ((w - 1) as u16)) & 1 == 1 {
        assert((v | (0xFFFFu16 << w)) >> w == 0xFFFFu16 >> w) by (bit_vector)
            requires
                1 <= w <= 15,
                v < (1u16 << w),
        ;
    }
}

} // verus!
