use lc3::bits::{
    classify, get_as_u16, get_immed_bit, get_reg, is_negative, sign_extend, update_flags, CondFlag,
};

#[test]
fn sign_extend_keeps_value_when_top_bit_clear() {
    // For every width in use, a field whose top bit is 0 round-trips.
    assert_eq!(sign_extend(0x000F, 5), 0x000F);
    assert_eq!(sign_extend(0x001F, 6), 0x001F);
    assert_eq!(sign_extend(0x00FF, 9), 0x00FF);
    assert_eq!(sign_extend(0x03FF, 11), 0x03FF);
    assert_eq!(sign_extend(0x0000, 5), 0x0000);
}

#[test]
fn sign_extend_sets_upper_bits_when_top_bit_set() {
    assert_eq!(sign_extend(0x001F, 5), 0xFFFF);
    assert_eq!(sign_extend(0x0010, 5), 0xFFF0);
    assert_eq!(sign_extend(0x0020, 6), 0xFFE0);
    assert_eq!(sign_extend(0x003E, 6), 0xFFFE);
    assert_eq!(sign_extend(0x0100, 9), 0xFF00);
    assert_eq!(sign_extend(0x01FB, 9), 0xFFFB);
    assert_eq!(sign_extend(0x0400, 11), 0xFC00);
}

#[test]
fn get_as_u16_is_big_endian() {
    assert_eq!(get_as_u16(0x12, 0x34), 0x1234);
    assert_eq!(get_as_u16(0x00, 0x00), 0x0000);
    assert_eq!(get_as_u16(0xFF, 0x01), 0xFF01);
}

#[test]
fn is_negative_reads_bit_15() {
    assert!(is_negative(0x8000));
    assert!(is_negative(0xFFFF));
    assert!(!is_negative(0x7FFF));
    assert!(!is_negative(0));
}

#[test]
fn get_immed_bit_reads_bit_5() {
    assert_eq!(get_immed_bit(0x0020), 1);
    assert_eq!(get_immed_bit(0xFFDF), 0);
}

#[test]
fn get_reg_extracts_three_bits() {
    assert_eq!(get_reg(0b0001_011_010_0_00_001, 9), 3);
    assert_eq!(get_reg(0b0001_011_010_0_00_001, 6), 2);
    assert_eq!(get_reg(0b0001_011_010_0_00_001, 0), 1);
}

#[test]
fn classify_is_zero_negative_positive() {
    assert_eq!(classify(0), CondFlag::Zero);
    assert_eq!(classify(0x8000), CondFlag::Negative);
    assert_eq!(classify(0xFFFF), CondFlag::Negative);
    assert_eq!(classify(1), CondFlag::Positive);
    assert_eq!(classify(0x7FFF), CondFlag::Positive);
}

#[test]
fn update_flags_follows_the_value() {
    let mut cond = CondFlag::Positive;
    update_flags(0, &mut cond);
    assert_eq!(cond, CondFlag::Zero);
    update_flags(0x8001, &mut cond);
    assert_eq!(cond, CondFlag::Negative);
    update_flags(42, &mut cond);
    assert_eq!(cond, CondFlag::Positive);
}
