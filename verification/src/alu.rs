//! The arithmetic and logic unit: pure functions from operand bytes and the
//! status byte to a result byte and the new status byte.
//!
//! Decimal mode is not modelled: addition and subtraction are binary whatever
//! the DecimalMode flag says.

use crate::flags::{flag_set, put_flag, put_zn, test_flag, with_flag, with_zn, StatusFlag};
use crate::flags::{lemma_flag_write_read, lemma_zn_read};
use vstd::prelude::*;

verus! {

/// The carry flag of `p` as a number, 0 or 1.
pub open spec fn carry_in(p: u8) -> int {
    if flag_set(p, StatusFlag::Carry) {
        1
    } else {
        0
    }
}

/// ADC: `a + v + C` as a nine-bit sum. The low eight bits are the result,
/// bit 8 is the new Carry, Overflow is set when the sign of the result
/// differs from the common sign of both inputs.
pub open spec fn adc(a: u8, v: u8, p: u8) -> (u8, u8) {
    let sum = a + v + carry_in(p);
    let r = (sum % 256) as u8;
    let overflow = (a ^ r) & 0x80 != 0 && (a ^ v) & 0x80 == 0;
    (
        r,
        with_zn(
            with_flag(with_flag(p, StatusFlag::Carry, sum > 255), StatusFlag::Overflow, overflow),
            r,
        ),
    )
}

/// SBC: `a - v - (1 - C)`. The result is the difference modulo 256, Carry is
/// set when no borrow was needed, Overflow when the sign of the result
/// differs from the sign of `a` and the signs of the inputs differ.
pub open spec fn sbc(a: u8, v: u8, p: u8) -> (u8, u8) {
    let diff = a - v - (1 - carry_in(p));
    let r = (diff % 256) as u8;
    let overflow = (a ^ r) & 0x80 != 0 && (a ^ v) & 0x80 != 0;
    (
        r,
        with_zn(
            with_flag(with_flag(p, StatusFlag::Carry, diff >= 0), StatusFlag::Overflow, overflow),
            r,
        ),
    )
}

/// CMP, CPX, CPY: the flags of `reg - v`. Carry is set when the difference is
/// not negative, Zero and Negative come from its low byte.
pub open spec fn compare(reg: u8, v: u8, p: u8) -> u8 {
    let diff = reg - v;
    with_zn(with_flag(p, StatusFlag::Carry, diff >= 0), (diff % 256) as u8)
}

/// ASL: bit 7 goes to Carry, the rest moves up by one.
pub open spec fn asl(v: u8, p: u8) -> (u8, u8) {
    let r = v << 1;
    (r, with_zn(with_flag(p, StatusFlag::Carry, v & 0x80 != 0), r))
}

/// LSR: bit 0 goes to Carry, the rest moves down by one.
pub open spec fn lsr(v: u8, p: u8) -> (u8, u8) {
    let r = v >> 1;
    (r, with_zn(with_flag(p, StatusFlag::Carry, v & 0x01 != 0), r))
}

/// ROL: a nine-bit rotation to the left through Carry.
pub open spec fn rol(v: u8, p: u8) -> (u8, u8) {
    let r = (v << 1) | (if flag_set(p, StatusFlag::Carry) {
        0x01u8
    } else {
        0x00u8
    });
    (r, with_zn(with_flag(p, StatusFlag::Carry, v & 0x80 != 0), r))
}

/// ROR: a nine-bit rotation to the right through Carry.
pub open spec fn ror(v: u8, p: u8) -> (u8, u8) {
    let r = (v >> 1) | (if flag_set(p, StatusFlag::Carry) {
        0x80u8
    } else {
        0x00u8
    });
    (r, with_zn(with_flag(p, StatusFlag::Carry, v & 0x01 != 0), r))
}

/// BIT: Negative and Overflow copy bits 7 and 6 of the operand, Zero tells
/// whether accumulator and operand share no bit.
pub open spec fn bit_test(a: u8, v: u8, p: u8) -> u8 {
    with_flag(
        with_flag(with_flag(p, StatusFlag::Negative, v & 0x80 != 0), StatusFlag::Overflow, v & 0x40
            != 0),
        StatusFlag::Zero,
        v & a == 0,
    )
}

/// ARR: the operand masked by the accumulator is rotated right through Carry;
/// Carry then copies bit 6 of the result and Overflow is bit 6 xor bit 5.
pub open spec fn arr(a: u8, v: u8, p: u8) -> (u8, u8) {
    let r = ((a & v) >> 1) | (if flag_set(p, StatusFlag::Carry) {
        0x80u8
    } else {
        0x00u8
    });
    (
        r,
        with_flag(
            with_flag(with_zn(p, r), StatusFlag::Carry, r & 0x40 != 0),
            StatusFlag::Overflow,
            (r & 0x40 != 0) != (r & 0x20 != 0),
        ),
    )
}

/// Adds with carry.
pub fn add_with_carry(a: u8, v: u8, p: u8) -> (out: (u8, u8))
    ensures
        out == adc(a, v, p),
{
    let carry: u16 = if test_flag(p, StatusFlag::Carry) {
        1
    } else {
        0
    };
    let sum: u16 = a as u16 + v as u16 + carry;
    let r: u8 = (sum % 256) as u8;
    let overflow = (a ^ r) & 0x80 != 0 && (a ^ v) & 0x80 == 0;
    let p1 = put_flag(p, StatusFlag::Carry, sum > 255);
    let p2 = put_flag(p1, StatusFlag::Overflow, overflow);
    (r, put_zn(p2, r))
}

/// Subtracts with borrow.
pub fn subtract_with_borrow(a: u8, v: u8, p: u8) -> (out: (u8, u8))
    ensures
        out == sbc(a, v, p),
{
    let borrow: u16 = if test_flag(p, StatusFlag::Carry) {
        0
    } else {
        1
    };
    let biased: u16 = 0x100 + a as u16 - v as u16 - borrow;
    let r: u8 = (biased % 256) as u8;
    let overflow = (a ^ r) & 0x80 != 0 && (a ^ v) & 0x80 != 0;
    let p1 = put_flag(p, StatusFlag::Carry, biased >= 0x100);
    let p2 = put_flag(p1, StatusFlag::Overflow, overflow);
    (r, put_zn(p2, r))
}

/// Compares a register with an operand and returns the new status byte.
pub fn compare_bytes(reg: u8, v: u8, p: u8) -> (q: u8)
    ensures
        q == compare(reg, v, p),
{
    let low = reg.wrapping_sub(v);
    put_zn(put_flag(p, StatusFlag::Carry, reg >= v), low)
}

/// Shifts left by one bit.
pub fn shift_left(v: u8, p: u8) -> (out: (u8, u8))
    ensures
        out == asl(v, p),
{
    let r = v << 1;
    (r, put_zn(put_flag(p, StatusFlag::Carry, v & 0x80 != 0), r))
}

/// Shifts right by one bit.
pub fn shift_right(v: u8, p: u8) -> (out: (u8, u8))
    ensures
        out == lsr(v, p),
{
    let r = v >> 1;
    (r, put_zn(put_flag(p, StatusFlag::Carry, v & 0x01 != 0), r))
}

/// Rotates left through Carry.
pub fn rotate_left(v: u8, p: u8) -> (out: (u8, u8))
    ensures
        out == rol(v, p),
{
    let low: u8 = if test_flag(p, StatusFlag::Carry) {
        0x01
    } else {
        0x00
    };
    let r = (v << 1) | low;
    (r, put_zn(put_flag(p, StatusFlag::Carry, v & 0x80 != 0), r))
}

/// Rotates right through Carry.
pub fn rotate_right(v: u8, p: u8) -> (out: (u8, u8))
    ensures
        out == ror(v, p),
{
    let high: u8 = if test_flag(p, StatusFlag::Carry) {
        0x80
    } else {
        0x00
    };
    let r = (v >> 1) | high;
    (r, put_zn(put_flag(p, StatusFlag::Carry, v & 0x01 != 0), r))
}

/// Tests the operand's bits against the accumulator.
pub fn test_bits(a: u8, v: u8, p: u8) -> (q: u8)
    ensures
        q == bit_test(a, v, p),
{
    let p1 = put_flag(p, StatusFlag::Negative, v & 0x80 != 0);
    let p2 = put_flag(p1, StatusFlag::Overflow, v & 0x40 != 0);
    put_flag(p2, StatusFlag::Zero, v & a == 0)
}

/// Masks, then rotates right through Carry.
pub fn and_rotate_right(a: u8, v: u8, p: u8) -> (out: (u8, u8))
    ensures
        out == arr(a, v, p),
{
    let high: u8 = if test_flag(p, StatusFlag::Carry) {
        0x80
    } else {
        0x00
    };
    let r = ((a & v) >> 1) | high;
    let p1 = put_flag(put_zn(p, r), StatusFlag::Carry, r & 0x40 != 0);
    (r, put_flag(p1, StatusFlag::Overflow, (r & 0x40 != 0) != (r & 0x20 != 0)))
}

/// A byte read as a two's complement number.
pub open spec fn signed(x: u8) -> int {
    if x >= 0x80 {
        x - 256
    } else {
        x as int
    }
}

proof fn lemma_sign_bits_differ(x: u8, y: u8)
    ensures
        ((x ^ y) & 0x80 != 0) == ((x >= 0x80) != (y >= 0x80)),
{
    assert(((x ^ y) & 0x80 != 0) == ((x >= 0x80) != (y >= 0x80))) by (bit_vector);
}

/// What ADC leaves in the flags: Carry is the unsigned overflow, Overflow the
/// signed one, Zero and Negative describe the result, the rest is untouched.
pub proof fn law_adc_flags(a: u8, v: u8, p: u8, read: StatusFlag)
    ensures
        adc(a, v, p).0 == (a + v + carry_in(p)) % 256,
        flag_set(adc(a, v, p).1, read) == (match read {
            StatusFlag::Carry => a + v + carry_in(p) > 255,
            StatusFlag::Overflow => !(-128 <= signed(a) + signed(v) + carry_in(p) <= 127),
            StatusFlag::Zero => adc(a, v, p).0 == 0,
            StatusFlag::Negative => adc(a, v, p).0 >= 0x80,
            _ => flag_set(p, read),
        }),
{
    let sum = a + v + carry_in(p);
    let r = (sum % 256) as u8;
    let overflow = (a ^ r) & 0x80 != 0 && (a ^ v) & 0x80 == 0;
    let p1 = with_flag(p, StatusFlag::Carry, sum > 255);
    let p2 = with_flag(p1, StatusFlag::Overflow, overflow);
    lemma_sign_bits_differ(a, r);
    lemma_sign_bits_differ(a, v);
    lemma_flag_write_read(p, StatusFlag::Carry, sum > 255, read);
    lemma_flag_write_read(p1, StatusFlag::Overflow, overflow, read);
    lemma_zn_read(p2, r, read);
}

/// What SBC leaves in the flags: Carry tells that no borrow was needed,
/// Overflow that the signed difference left the range of a byte.
pub proof fn law_sbc_flags(a: u8, v: u8, p: u8, read: StatusFlag)
    ensures
        sbc(a, v, p).0 == (a - v - (1 - carry_in(p))) % 256,
        flag_set(sbc(a, v, p).1, read) == (match read {
            StatusFlag::Carry => a - v - (1 - carry_in(p)) >= 0,
            StatusFlag::Overflow => !(-128 <= signed(a) - signed(v) - (1 - carry_in(p)) <= 127),
            StatusFlag::Zero => sbc(a, v, p).0 == 0,
            StatusFlag::Negative => sbc(a, v, p).0 >= 0x80,
            _ => flag_set(p, read),
        }),
{
    let diff = a - v - (1 - carry_in(p));
    let r = (diff % 256) as u8;
    let overflow = (a ^ r) & 0x80 != 0 && (a ^ v) & 0x80 != 0;
    let p1 = with_flag(p, StatusFlag::Carry, diff >= 0);
    let p2 = with_flag(p1, StatusFlag::Overflow, overflow);
    lemma_sign_bits_differ(a, r);
    lemma_sign_bits_differ(a, v);
    lemma_flag_write_read(p, StatusFlag::Carry, diff >= 0, read);
    lemma_flag_write_read(p1, StatusFlag::Overflow, overflow, read);
    lemma_zn_read(p2, r, read);
}

/// Subtracting is adding the operand's complement.
pub proof fn law_sbc_adds_complement(a: u8, v: u8, p: u8)
    ensures
        sbc(a, v, p) == adc(a, !v, p),
{
    let w: u8 = !v;
    assert(w == 255 - v) by (bit_vector)
        requires
            w == !v,
    ;
    assert(((a ^ v) & 0x80 != 0) == ((a ^ w) & 0x80 == 0)) by (bit_vector)
        requires
            w == !v,
    ;
}

/// A comparison sets Carry when the register is not below the operand, Zero
/// when both are equal and Negative from bit 7 of their difference; no other
/// flag moves.
pub proof fn law_compare_flags(reg: u8, v: u8, p: u8, read: StatusFlag)
    ensures
        flag_set(compare(reg, v, p), read) == (match read {
            StatusFlag::Carry => reg >= v,
            StatusFlag::Zero => reg == v,
            StatusFlag::Negative => (reg - v) % 256 >= 128,
            _ => flag_set(p, read),
        }),
{
    let diff = reg - v;
    let p1 = with_flag(p, StatusFlag::Carry, diff >= 0);
    lemma_flag_write_read(p, StatusFlag::Carry, diff >= 0, read);
    lemma_zn_read(p1, (diff % 256) as u8, read);
}

/// Shifting left and then right loses bit 7 and nothing else, whatever the
/// flags were.
pub proof fn law_shift_round_trip(b: u8, p: u8)
    ensures
        lsr(asl(b, p).0, asl(b, p).1).0 == b & 0x7F,
        !flag_set(lsr(asl(b, p).0, asl(b, p).1).1, StatusFlag::Carry),
{
    let r1 = asl(b, p).0;
    let p1 = asl(b, p).1;
    assert((b << 1) >> 1 == b & 0x7F) by (bit_vector);
    assert((b << 1) & 0x01 == 0) by (bit_vector);
    lemma_flag_write_read(p1, StatusFlag::Carry, r1 & 0x01 != 0, StatusFlag::Carry);
    lemma_zn_read(with_flag(p1, StatusFlag::Carry, r1 & 0x01 != 0), r1 >> 1, StatusFlag::Carry);
}

/// Rotating left and then right through Carry gives back the byte and the
/// Carry flag.
pub proof fn law_rotate_round_trip(b: u8, p: u8)
    ensures
        ror(rol(b, p).0, rol(b, p).1).0 == b,
        flag_set(ror(rol(b, p).0, rol(b, p).1).1, StatusFlag::Carry) == flag_set(
            p,
            StatusFlag::Carry,
        ),
{
    let c = flag_set(p, StatusFlag::Carry);
    let low: u8 = if c {
        0x01
    } else {
        0x00
    };
    let r1 = rol(b, p).0;
    let p1 = rol(b, p).1;
    let p0 = with_flag(p, StatusFlag::Carry, b & 0x80 != 0);
    lemma_flag_write_read(p, StatusFlag::Carry, b & 0x80 != 0, StatusFlag::Carry);
    lemma_zn_read(p0, r1, StatusFlag::Carry);
    assert(flag_set(p1, StatusFlag::Carry) == (b & 0x80 != 0));
    let high: u8 = if b & 0x80 != 0 {
        0x80
    } else {
        0x00
    };
    assert((((b << 1) | low) >> 1) | high == b) by (bit_vector)
        requires
            low == 0x01 || low == 0x00,
            high == (if b & 0x80 != 0 {
                0x80u8
            } else {
                0x00u8
            }),
    ;
    assert((((b << 1) | low) & 0x01 != 0) == (low == 0x01)) by (bit_vector)
        requires
            low == 0x01 || low == 0x00,
    ;
    let p2 = with_flag(p1, StatusFlag::Carry, r1 & 0x01 != 0);
    lemma_flag_write_read(p1, StatusFlag::Carry, r1 & 0x01 != 0, StatusFlag::Carry);
    lemma_zn_read(p2, ror(r1, p1).0, StatusFlag::Carry);
}

/// Rotating right and then left through Carry gives back the byte and the
/// Carry flag.
pub proof fn law_rotate_round_trip_right_first(b: u8, p: u8)
    ensures
        rol(ror(b, p).0, ror(b, p).1).0 == b,
        flag_set(rol(ror(b, p).0, ror(b, p).1).1, StatusFlag::Carry) == flag_set(
            p,
            StatusFlag::Carry,
        ),
{
    let c = flag_set(p, StatusFlag::Carry);
    let high: u8 = if c {
        0x80
    } else {
        0x00
    };
    let r1 = ror(b, p).0;
    let p1 = ror(b, p).1;
    let p0 = with_flag(p, StatusFlag::Carry, b & 0x01 != 0);
    lemma_flag_write_read(p, StatusFlag::Carry, b & 0x01 != 0, StatusFlag::Carry);
    lemma_zn_read(p0, r1, StatusFlag::Carry);
    assert(flag_set(p1, StatusFlag::Carry) == (b & 0x01 != 0));
    let low: u8 = if b & 0x01 != 0 {
        0x01
    } else {
        0x00
    };
    assert((((b >> 1) | high) << 1) | low == b) by (bit_vector)
        requires
            high == 0x80 || high == 0x00,
            low == (if b & 0x01 != 0 {
                0x01u8
            } else {
                0x00u8
            }),
    ;
    assert((((b >> 1) | high) & 0x80 != 0) == (high == 0x80)) by (bit_vector)
        requires
            high == 0x80 || high == 0x00,
    ;
    let p2 = with_flag(p1, StatusFlag::Carry, r1 & 0x80 != 0);
    lemma_flag_write_read(p1, StatusFlag::Carry, r1 & 0x80 != 0, StatusFlag::Carry);
    lemma_zn_read(p2, rol(r1, p1).0, StatusFlag::Carry);
}

} // verus!
