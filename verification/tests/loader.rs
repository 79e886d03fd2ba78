use lc3::loader::{load_image, LoadError};

#[test]
fn zero_origin_word_loads_at_default_origin() {
    // Origin word 0x0000 stands for the default origin 0x3000.
    let bytes = [0x00, 0x00, 0x10, 0x20];
    let (origin, mem) = load_image(&bytes).unwrap();
    assert_eq!(origin, 0x3000);
    assert_eq!(mem.len(), 0x10000);
    assert_eq!(mem[0x3000], 0x1020);
    assert_eq!(mem[0x3001], 0);
}

#[test]
fn explicit_origin_word_loads_there() {
    let bytes = [0x40, 0x00, 0xAB, 0xCD];
    let (origin, mem) = load_image(&bytes).unwrap();
    assert_eq!(origin, 0x4000);
    assert_eq!(mem[0x4000], 0xABCD);
    assert_eq!(mem[0x3000], 0);
}

#[test]
fn body_words_load_in_order() {
    let bytes = [0x30, 0x00, 0x11, 0x22, 0x33, 0x44, 0x55, 0x66];
    let (origin, mem) = load_image(&bytes).unwrap();
    assert_eq!(origin, 0x3000);
    assert_eq!(mem[0x3000], 0x1122);
    assert_eq!(mem[0x3001], 0x3344);
    assert_eq!(mem[0x3002], 0x5566);
    assert_eq!(mem[0x3003], 0);
}

#[test]
fn empty_stream_is_a_truncated_origin() {
    assert_eq!(load_image(&[]), Err(LoadError::TruncatedOrigin));
    assert_eq!(load_image(&[0x30]), Err(LoadError::TruncatedOrigin));
}

#[test]
fn trailing_byte_is_a_truncated_word() {
    assert_eq!(load_image(&[0x30, 0x00, 0x11]), Err(LoadError::TruncatedWord));
    assert_eq!(
        load_image(&[0x30, 0x00, 0x11, 0x22, 0x33]),
        Err(LoadError::TruncatedWord)
    );
}

#[test]
fn body_past_top_of_memory_is_rejected() {
    // Origin 0xFFFF leaves room for exactly one body word.
    let too_large = [0xFF, 0xFF, 0x00, 0x01, 0x00, 0x02];
    assert_eq!(load_image(&too_large), Err(LoadError::ImageTooLarge));

    let just_fits = [0xFF, 0xFF, 0x00, 0x01];
    let (origin, mem) = load_image(&just_fits).unwrap();
    assert_eq!(origin, 0xFFFF);
    assert_eq!(mem[0xFFFF], 1);
}

#[test]
fn origin_word_alone_is_a_valid_empty_image() {
    let (origin, mem) = load_image(&[0x50, 0x00]).unwrap();
    assert_eq!(origin, 0x5000);
    assert!(mem.iter().all(|&w| w == 0));
}
