use nes6502::alu::{
    add_with_carry, compare_bytes, decrement, high_byte, increment, low_byte, make_word,
    offset_address, page_crossed, rotate_left, rotate_right, shift_left, shift_right,
    signed_overflow_add, signed_overflow_sub, subtract_with_carry, test_bits, Shifted, Sum, Tested,
};

#[test]
fn adc_positive_plus_positive_overflows_into_the_sign() {
    assert_eq!(add_with_carry(0x7f, 0x01, false), Sum { value: 0x80, carry: false, overflow: true });
}

#[test]
fn adc_carries_out_of_bit_7() {
    assert_eq!(add_with_carry(0xff, 0x01, false), Sum { value: 0x00, carry: true, overflow: false });
    assert_eq!(add_with_carry(0xff, 0xff, true), Sum { value: 0xff, carry: true, overflow: false });
    assert_eq!(add_with_carry(0x80, 0x80, false), Sum { value: 0x00, carry: true, overflow: true });
    assert_eq!(add_with_carry(0x10, 0x20, true), Sum { value: 0x31, carry: false, overflow: false });
}

#[test]
fn adc_overflow_counts_the_carry_in() {
    assert_eq!(add_with_carry(0x7f, 0x00, true), Sum { value: 0x80, carry: false, overflow: true });
    assert_eq!(add_with_carry(0x00, 0x7f, true), Sum { value: 0x80, carry: false, overflow: true });
    assert!(signed_overflow_add(0x7f, 0x00, true));
    assert!(!signed_overflow_add(0x7f, 0x00, false));
    assert!(!signed_overflow_add(0x80, 0xff, true));
}

#[test]
fn adc_agrees_with_signed_arithmetic_everywhere() {
    for a in 0..=255u8 {
        for m in 0..=255u8 {
            for carry in [false, true] {
                let sum = add_with_carry(a, m, carry);
                let wide = a as u16 + m as u16 + carry as u16;
                assert_eq!(sum.value, wide as u8);
                assert_eq!(sum.carry, wide > 0xff);
                let signed = a as i8 as i16 + m as i8 as i16 + carry as i16;
                assert_eq!(sum.overflow, signed < -128 || signed > 127);
                assert_eq!(sum.overflow, signed_overflow_add(a, m, carry));
            }
        }
    }
}

#[test]
fn sbc_sets_carry_when_nothing_is_borrowed() {
    assert_eq!(subtract_with_carry(0x50, 0x10, true), Sum { value: 0x40, carry: true, overflow: false });
    assert_eq!(subtract_with_carry(0x50, 0x10, false), Sum { value: 0x3f, carry: true, overflow: false });
    assert_eq!(subtract_with_carry(0x10, 0x20, true), Sum { value: 0xf0, carry: false, overflow: false });
    assert_eq!(subtract_with_carry(0x00, 0x00, false), Sum { value: 0xff, carry: false, overflow: false });
    assert_eq!(subtract_with_carry(0x80, 0x01, true), Sum { value: 0x7f, carry: true, overflow: true });
    assert_eq!(subtract_with_carry(0x7f, 0xff, true), Sum { value: 0x80, carry: false, overflow: true });
}

#[test]
fn sbc_is_adc_of_the_complement_everywhere() {
    for a in 0..=255u8 {
        for m in 0..=255u8 {
            for carry in [false, true] {
                let diff = subtract_with_carry(a, m, carry);
                assert_eq!(diff, add_with_carry(a, !m, carry));
                let signed = a as i8 as i16 - m as i8 as i16 - (1 - carry as i16);
                assert_eq!(diff.overflow, signed < -128 || signed > 127);
                assert_eq!(diff.overflow, signed_overflow_sub(a, m, carry));
            }
        }
    }
}

#[test]
fn compare_is_unsigned() {
    assert_eq!(
        compare_bytes(0x7f, 0x80),
        Tested { carry: false, zero: false, overflow: false, negative: true }
    );
    assert_eq!(
        compare_bytes(0x80, 0x7f),
        Tested { carry: true, zero: false, overflow: false, negative: false }
    );
    assert_eq!(
        compare_bytes(0x42, 0x42),
        Tested { carry: true, zero: true, overflow: false, negative: false }
    );
    assert_eq!(
        compare_bytes(0xff, 0x00),
        Tested { carry: true, zero: false, overflow: false, negative: true }
    );
    assert_eq!(
        compare_bytes(0x00, 0xff),
        Tested { carry: false, zero: false, overflow: false, negative: false }
    );
}

#[test]
fn bit_test_takes_v_and_n_from_the_operand() {
    assert_eq!(
        test_bits(0x01, 0xc0),
        Tested { carry: false, zero: true, overflow: true, negative: true }
    );
    assert_eq!(
        test_bits(0xff, 0x40),
        Tested { carry: false, zero: false, overflow: true, negative: false }
    );
    assert_eq!(
        test_bits(0xff, 0x81),
        Tested { carry: false, zero: false, overflow: false, negative: true }
    );
    assert_eq!(
        test_bits(0x0f, 0x0f),
        Tested { carry: false, zero: false, overflow: false, negative: false }
    );
}

#[test]
fn shifts_move_the_lost_bit_into_carry() {
    assert_eq!(shift_left(0x81), Shifted { value: 0x02, carry: true });
    assert_eq!(shift_left(0x40), Shifted { value: 0x80, carry: false });
    assert_eq!(shift_right(0x81), Shifted { value: 0x40, carry: true });
    assert_eq!(shift_right(0x02), Shifted { value: 0x01, carry: false });
}

#[test]
fn rotates_bring_the_old_carry_in() {
    assert_eq!(rotate_left(0x80, false), Shifted { value: 0x00, carry: true });
    assert_eq!(rotate_left(0x80, true), Shifted { value: 0x01, carry: true });
    assert_eq!(rotate_left(0x01, true), Shifted { value: 0x03, carry: false });
    assert_eq!(rotate_right(0x01, false), Shifted { value: 0x00, carry: true });
    assert_eq!(rotate_right(0x01, true), Shifted { value: 0x80, carry: true });
    assert_eq!(rotate_right(0x80, true), Shifted { value: 0xc0, carry: false });
}

#[test]
fn rotating_there_and_back_changes_nothing() {
    for value in 0..=255u8 {
        for carry in [false, true] {
            let left = rotate_left(value, carry);
            assert_eq!(rotate_right(left.value, left.carry), Shifted { value, carry });
            let right = rotate_right(value, carry);
            assert_eq!(rotate_left(right.value, right.carry), Shifted { value, carry });
        }
    }
}

#[test]
fn words_are_little_endian() {
    assert_eq!(make_word(0x34, 0x12), 0x1234);
    assert_eq!(make_word(0xff, 0x00), 0x00ff);
    assert_eq!(make_word(0x00, 0xff), 0xff00);
    assert_eq!(low_byte(0x1234), 0x34);
    assert_eq!(high_byte(0x1234), 0x12);
    assert_eq!(low_byte(0xffff), 0xff);
    assert_eq!(high_byte(0x00ff), 0x00);
}

#[test]
fn a_page_is_256_bytes() {
    assert!(!page_crossed(0x1200, 0x12ff));
    assert!(page_crossed(0x12ff, 0x1300));
    assert!(!page_crossed(0x0080, 0x00ff));
    assert!(page_crossed(0x00ff, 0x0100));
    assert!(page_crossed(0xffff, 0x0000));
    assert!(!page_crossed(0x1234, 0x1234));
}

#[test]
fn branch_offsets_are_signed() {
    assert_eq!(offset_address(0x0602, 0x05), 0x0607);
    assert_eq!(offset_address(0x0602, 0x7f), 0x0681);
    assert_eq!(offset_address(0x0602, 0xfe), 0x0600);
    assert_eq!(offset_address(0x0602, 0x80), 0x0582);
    assert_eq!(offset_address(0xfffe, 0x05), 0x0003);
    assert_eq!(offset_address(0x0001, 0xfd), 0xfffe);
}

#[test]
fn counting_wraps_round() {
    assert_eq!(increment(0xff), 0x00);
    assert_eq!(increment(0x7f), 0x80);
    assert_eq!(decrement(0x00), 0xff);
    assert_eq!(decrement(0x01), 0x00);
}
