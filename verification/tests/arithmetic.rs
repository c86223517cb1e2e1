use mos6510::alu::{
    add_with_carry, and_rotate_right, compare_bytes, rotate_left, rotate_right, shift_left,
    shift_right, subtract_with_borrow, test_bits,
};
use mos6510::flags::{put_flag, put_zn, test_flag, StatusFlag};

const C: u8 = 0x01;
const Z: u8 = 0x02;
const V: u8 = 0x40;
const N: u8 = 0x80;

#[test]
fn flag_masks_follow_bit_positions() {
    assert_eq!(StatusFlag::Carry.bits(), 0x01);
    assert_eq!(StatusFlag::Zero.bits(), 0x02);
    assert_eq!(StatusFlag::InterruptDisable.bits(), 0x04);
    assert_eq!(StatusFlag::DecimalMode.bits(), 0x08);
    assert_eq!(StatusFlag::Break.bits(), 0x10);
    assert_eq!(StatusFlag::Unused.bits(), 0x20);
    assert_eq!(StatusFlag::Overflow.bits(), 0x40);
    assert_eq!(StatusFlag::Negative.bits(), 0x80);
}

#[test]
fn put_flag_touches_one_bit() {
    assert_eq!(put_flag(0x00, StatusFlag::Overflow, true), 0x40);
    assert_eq!(put_flag(0xFF, StatusFlag::Overflow, false), 0xBF);
    assert_eq!(put_flag(0x40, StatusFlag::Overflow, true), 0x40);
    assert!(test_flag(0x40, StatusFlag::Overflow));
    assert!(!test_flag(0xBF, StatusFlag::Overflow));
}

#[test]
fn put_zn_reflects_the_value() {
    assert_eq!(put_zn(0x00, 0x00), Z);
    assert_eq!(put_zn(0x00, 0x80), N);
    assert_eq!(put_zn(Z | N | C, 0x01), C);
}

#[test]
fn adc_exact_values() {
    assert_eq!(add_with_carry(0x50, 0x50, 0x00), (0xA0, V | N));
    assert_eq!(add_with_carry(0xFF, 0x01, 0x00), (0x00, C | Z));
    assert_eq!(add_with_carry(0xFF, 0xFF, C), (0xFF, C | N));
    assert_eq!(add_with_carry(0x80, 0x80, 0x00), (0x00, C | Z | V));
    assert_eq!(add_with_carry(0x01, 0x01, C), (0x03, 0x00));
    assert_eq!(add_with_carry(0x7F, 0x00, C), (0x80, V | N));
}

#[test]
fn adc_ignores_decimal_mode() {
    assert_eq!(add_with_carry(0x09, 0x01, 0x08), (0x0A, 0x08));
}

#[test]
fn sbc_exact_values() {
    assert_eq!(subtract_with_borrow(0x50, 0x10, C), (0x40, C));
    assert_eq!(subtract_with_borrow(0x50, 0x10, 0x00), (0x3F, C));
    assert_eq!(subtract_with_borrow(0x00, 0x01, C), (0xFF, N));
    assert_eq!(subtract_with_borrow(0x80, 0x01, C), (0x7F, C | V));
    assert_eq!(subtract_with_borrow(0x10, 0x10, C), (0x00, C | Z));
    assert_eq!(subtract_with_borrow(0x7F, 0xFF, C), (0x80, V | N));
}

#[test]
fn sbc_is_adc_of_complement_on_every_input() {
    for a in 0..=255u8 {
        for v in 0..=255u8 {
            for p in [0x00u8, C] {
                assert_eq!(subtract_with_borrow(a, v, p), add_with_carry(a, !v, p));
            }
        }
    }
}

#[test]
fn compare_exact_values() {
    assert_eq!(compare_bytes(0x10, 0x10, 0x00), C | Z);
    assert_eq!(compare_bytes(0x10, 0x20, 0x00), N);
    assert_eq!(compare_bytes(0x20, 0x10, 0x00), C);
    assert_eq!(compare_bytes(0x00, 0x80, C | V), V | N);
    assert_eq!(compare_bytes(0xFF, 0x00, 0x00), C | N);
}

#[test]
fn shifts_exact_values() {
    assert_eq!(shift_left(0x81, 0x00), (0x02, C));
    assert_eq!(shift_left(0x40, C), (0x80, N));
    assert_eq!(shift_left(0x80, 0x00), (0x00, C | Z));
    assert_eq!(shift_right(0x81, 0x00), (0x40, C));
    assert_eq!(shift_right(0x80, C), (0x40, 0x00));
    assert_eq!(shift_right(0x01, 0x00), (0x00, C | Z));
}

#[test]
fn lsr_takes_carry_from_bit_zero() {
    // Bit 7 of the operand must not reach Carry.
    assert_eq!(shift_right(0x80, 0x00), (0x40, 0x00));
    assert_eq!(shift_right(0x01, 0x00).1 & C, C);
}

#[test]
fn rotations_exact_values() {
    assert_eq!(rotate_left(0x80, 0x00), (0x00, C | Z));
    assert_eq!(rotate_left(0x80, C), (0x01, C));
    assert_eq!(rotate_left(0x40, C), (0x81, N));
    assert_eq!(rotate_right(0x01, 0x00), (0x00, C | Z));
    assert_eq!(rotate_right(0x01, C), (0x80, C | N));
    assert_eq!(rotate_right(0x02, C), (0x81, N));
}

#[test]
fn asl_lsr_round_trip_loses_bit_seven_only() {
    for b in 0..=255u8 {
        let (shifted, p) = shift_left(b, 0x00);
        let (back, _) = shift_right(shifted, p);
        assert_eq!(back, b & 0x7F);
    }
}

#[test]
fn rol_ror_round_trip_is_lossless() {
    for b in 0..=255u8 {
        for carry in [0x00u8, C] {
            let (rotated, p) = rotate_left(b, carry);
            let (back, q) = rotate_right(rotated, p);
            assert_eq!(back, b);
            assert_eq!(q & C, carry);
            let (rotated, p) = rotate_right(b, carry);
            let (back, q) = rotate_left(rotated, p);
            assert_eq!(back, b);
            assert_eq!(q & C, carry);
        }
    }
}

#[test]
fn bit_copies_operand_bits() {
    assert_eq!(test_bits(0x01, 0xC0, 0x00), N | V | Z);
    assert_eq!(test_bits(0xFF, 0x40, N), V);
    assert_eq!(test_bits(0x0F, 0x0F, Z | N | V | C), C);
}

#[test]
fn arr_exact_values() {
    // (A & v) >> 1 with Carry rotated in; C from bit 6, V from bit 6 xor bit 5.
    assert_eq!(and_rotate_right(0xFF, 0xFF, C), (0xFF, C | N));
    assert_eq!(and_rotate_right(0xFF, 0x80, 0x00), (0x40, C | V));
    assert_eq!(and_rotate_right(0xFF, 0x40, 0x00), (0x20, V));
    assert_eq!(and_rotate_right(0x00, 0xFF, 0x00), (0x00, Z));
}
