use lc3::bits::CondFlag;
use lc3::loader::load_image;
use lc3::machine::LC3;

#[test]
fn default_machine_is_zeroed_at_default_origin() {
    let m = LC3::default();
    assert_eq!(m.pc(), 0x3000);
    assert_eq!(m.condition_flags(), CondFlag::Zero);
    for n in 0..8 {
        assert_eq!(m.read_reg(n), 0);
    }
    assert_eq!(m.read_mem(0), 0);
    assert_eq!(m.read_mem(0xFFFF), 0);
}

#[test]
fn new_machine_takes_loaded_image_and_origin() {
    let bytes = [0x40, 0x00, 0x12, 0x34];
    let (origin, mem) = load_image(&bytes).unwrap();
    let m = LC3::new(origin, mem);
    assert_eq!(m.pc(), 0x4000);
    assert_eq!(m.read_mem(0x4000), 0x1234);
    assert_eq!(m.condition_flags(), CondFlag::Zero);
}

#[test]
fn write_reg_sets_flags_from_value_not_index() {
    // Whatever register index is written, the flag follows the value.
    let mut m = LC3::default();
    m.write_reg(0, 0x8000);
    assert_eq!(m.condition_flags(), CondFlag::Negative);
    m.write_reg(5, 0x8000);
    assert_eq!(m.condition_flags(), CondFlag::Negative);
    m.write_reg(7, 1);
    assert_eq!(m.condition_flags(), CondFlag::Positive);
    m.write_reg(2, 0);
    assert_eq!(m.condition_flags(), CondFlag::Zero);
    assert_eq!(m.read_reg(0), 0x8000);
    assert_eq!(m.read_reg(5), 0x8000);
    assert_eq!(m.read_reg(7), 1);
    assert_eq!(m.read_reg(2), 0);
}

#[test]
fn set_reg_leaves_flags_alone() {
    let mut m = LC3::default();
    m.write_reg(1, 3);
    assert_eq!(m.condition_flags(), CondFlag::Positive);
    m.set_reg(2, 0x8000);
    assert_eq!(m.read_reg(2), 0x8000);
    assert_eq!(m.condition_flags(), CondFlag::Positive);
}

#[test]
fn memory_reads_back_what_was_written() {
    let mut m = LC3::default();
    m.write_mem(0x1234, 0xBEEF);
    assert_eq!(m.read_mem(0x1234), 0xBEEF);
    assert_eq!(m.read_mem(0x1233), 0);
    assert_eq!(m.condition_flags(), CondFlag::Zero);
}

#[test]
fn advance_pc_wraps_at_top_of_memory() {
    let mut m = LC3::default();
    m.set_pc(0xFFFF);
    m.advance_pc();
    assert_eq!(m.pc(), 0);
    m.advance_pc();
    assert_eq!(m.pc(), 1);
}

#[test]
fn fetch_reads_the_word_at_the_pc() {
    let mut m = LC3::default();
    m.write_mem(0x3000, 0xF025);
    assert_eq!(m.fetch(), 0xF025);
    m.set_pc(0x3001);
    assert_eq!(m.fetch(), 0);
}
