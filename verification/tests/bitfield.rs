use flipperzero::bitfield::__BindgenBitfieldUnit;
use flipperzero::sys::InputEvent__bindgen_ty_1__bindgen_ty_1;

#[test]
fn get_bit_reads_little_endian_bits() {
    let unit = __BindgenBitfieldUnit::new([0b0000_0101u8, 0b1000_0000u8]);
    assert!(unit.get_bit(0));
    assert!(!unit.get_bit(1));
    assert!(unit.get_bit(2));
    assert!(!unit.get_bit(8));
    assert!(unit.get_bit(15));
}

#[test]
fn set_bit_then_get_bit() {
    let mut unit = __BindgenBitfieldUnit::new([0u8; 2]);
    unit.set_bit(9, true);
    assert!(unit.get_bit(9));
    assert!(!unit.get_bit(8));
    assert!(!unit.get_bit(10));
    unit.set_bit(9, false);
    assert!(!unit.get_bit(9));
}

#[test]
fn get_reads_a_field_across_bytes() {
    let unit = __BindgenBitfieldUnit::new([0xF0u8, 0x0Fu8]);
    assert_eq!(unit.get(4, 8), 0xFF);
    assert_eq!(unit.get(0, 4), 0);
    assert_eq!(unit.get(12, 4), 0);
    assert_eq!(unit.get(0, 16), 0x0FF0);
}

#[test]
fn set_then_get_keeps_the_low_bits_and_the_other_fields() {
    let mut unit = __BindgenBitfieldUnit::new([0xFFu8; 4]);
    unit.set(3, 5, 0b1_0110);
    assert_eq!(unit.get(3, 5), 0b1_0110);
    assert_eq!(unit.get(0, 3), 0b111);
    assert_eq!(unit.get(8, 24), 0xFF_FFFF);
    unit.set(3, 5, 0xFFFF_FFE0);
    assert_eq!(unit.get(3, 5), 0);
}

#[test]
fn set_and_get_a_whole_word() {
    let mut unit = __BindgenBitfieldUnit::new([0u8; 8]);
    unit.set(0, 64, 0x0123_4567_89AB_CDEF);
    assert_eq!(unit.get(0, 64), 0x0123_4567_89AB_CDEF);
    assert_eq!(unit.get(0, 8), 0xEF);
    assert_eq!(unit.get(56, 8), 0x01);
}

#[test]
fn input_event_sequence_fields() {
    let mut sequence = InputEvent__bindgen_ty_1__bindgen_ty_1 {
        _bitfield_align_1: [],
        _bitfield_1: InputEvent__bindgen_ty_1__bindgen_ty_1::new_bitfield_1(2, 1000),
    };
    assert_eq!(sequence.sequence_source(), 2);
    assert_eq!(sequence.sequence_counter(), 1000);
    sequence.set_sequence_source(7);
    assert_eq!(sequence.sequence_source(), 3);
    assert_eq!(sequence.sequence_counter(), 1000);
    sequence.set_sequence_counter(0xFFFF_FFFF);
    assert_eq!(sequence.sequence_counter(), 0x3FFF_FFFF);
    assert_eq!(sequence.sequence_source(), 3);
}
