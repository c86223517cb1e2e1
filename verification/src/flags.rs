//! The processor status register `P` and its individual flag bits.

use vstd::prelude::*;

verus! {

/// One bit of the processor status register.
#[derive(Clone, Copy, Debug, PartialEq, Eq, Structural)]
pub enum StatusFlag {
    Carry,
    Zero,
    InterruptDisable,
    DecimalMode,
    Break,
    Unused,
    Overflow,
    Negative,
}

impl StatusFlag {
    /// The single-bit mask that selects this flag inside `P`.
    pub open spec fn mask(self) -> u8 {
        match self {
            StatusFlag::Carry => 0x01,
            StatusFlag::Zero => 0x02,
            StatusFlag::InterruptDisable => 0x04,
            StatusFlag::DecimalMode => 0x08,
            StatusFlag::Break => 0x10,
            StatusFlag::Unused => 0x20,
            StatusFlag::Overflow => 0x40,
            StatusFlag::Negative => 0x80,
        }
    }

    /// Computes the mask of the flag.
    pub fn bits(self) -> (m: u8)
        ensures
            m == self.mask(),
    {
        match self {
            StatusFlag::Carry => 0x01,
            StatusFlag::Zero => 0x02,
            StatusFlag::InterruptDisable => 0x04,
            StatusFlag::DecimalMode => 0x08,
            StatusFlag::Break => 0x10,
            StatusFlag::Unused => 0x20,
            StatusFlag::Overflow => 0x40,
            StatusFlag::Negative => 0x80,
        }
    }
}

/// Whether `flag` is set in the status byte `p`.
pub open spec fn flag_set(p: u8, flag: StatusFlag) -> bool {
    p & flag.mask() != 0
}

/// The status byte `p` with `flag` forced to `value` and every other bit kept.
pub open spec fn with_flag(p: u8, flag: StatusFlag, value: bool) -> u8 {
    if value {
        p | flag.mask()
    } else {
        p & !flag.mask()
    }
}

/// The status byte `p` after a result `value` has been reflected in Zero and Negative.
pub open spec fn with_zn(p: u8, value: u8) -> u8 {
    with_flag(with_flag(p, StatusFlag::Zero, value == 0), StatusFlag::Negative, value >= 0x80)
}

/// Reads one flag of a status byte.
pub fn test_flag(p: u8, flag: StatusFlag) -> (set: bool)
    ensures
        set == flag_set(p, flag),
{
    p & flag.bits() != 0
}

/// Returns the status byte with one flag set or cleared.
pub fn put_flag(p: u8, flag: StatusFlag, value: bool) -> (q: u8)
    ensures
        q == with_flag(p, flag, value),
{
    if value {
        p | flag.bits()
    } else {
        p & !flag.bits()
    }
}

/// Returns the status byte with Zero and Negative derived from `value`.
pub fn put_zn(p: u8, value: u8) -> (q: u8)
    ensures
        q == with_zn(p, value),
{
    put_flag(put_flag(p, StatusFlag::Zero, value == 0), StatusFlag::Negative, value >= 0x80)
}

/// Writing a flag and reading any flag back: the written flag reads as the
/// value written, every other flag reads as before.
pub proof fn lemma_flag_write_read(p: u8, written: StatusFlag, value: bool, read: StatusFlag)
    ensures
        flag_set(with_flag(p, written, value), read) == (if written == read {
            value
        } else {
            flag_set(p, read)
        }),
{
    let m = written.mask();
    let r = read.mask();
    assert(single_bit(m) && single_bit(r));
    assert(m == r <==> written == read);
    lemma_mask_write_read(p, m, r);
}

/// A byte with exactly one bit set.
pub open spec fn single_bit(m: u8) -> bool {
    m == 0x01 || m == 0x02 || m == 0x04 || m == 0x08 || m == 0x10 || m == 0x20 || m == 0x40 || m
        == 0x80
}

proof fn lemma_mask_write_read(p: u8, m: u8, r: u8)
    requires
        single_bit(m),
        single_bit(r),
    ensures
        ((p | m) & r != 0) == (m == r || p & r != 0),
        ((p & !m) & r != 0) == (m != r && p & r != 0),
{
    assert(((p | m) & r != 0) == (m == r || p & r != 0)) by (bit_vector)
        requires
            m == 0x01 || m == 0x02 || m == 0x04 || m == 0x08 || m == 0x10 || m == 0x20 || m == 0x40
                || m == 0x80,
            r == 0x01 || r == 0x02 || r == 0x04 || r == 0x08 || r == 0x10 || r == 0x20 || r == 0x40
                || r == 0x80,
    ;
    assert(((p & !m) & r != 0) == (m != r && p & r != 0)) by (bit_vector)
        requires
            m == 0x01 || m == 0x02 || m == 0x04 || m == 0x08 || m == 0x10 || m == 0x20 || m == 0x40
                || m == 0x80,
            r == 0x01 || r == 0x02 || r == 0x04 || r == 0x08 || r == 0x10 || r == 0x20 || r == 0x40
                || r == 0x80,
    ;
}

/// How Zero and Negative read after `with_zn`, and that no other flag moved.
pub proof fn lemma_zn_read(p: u8, value: u8, read: StatusFlag)
    ensures
        flag_set(with_zn(p, value), read) == (match read {
            StatusFlag::Zero => value == 0,
            StatusFlag::Negative => value >= 0x80,
            _ => flag_set(p, read),
        }),
{
    let p1 = with_flag(p, StatusFlag::Zero, value == 0);
    lemma_flag_write_read(p, StatusFlag::Zero, value == 0, read);
    lemma_flag_write_read(p1, StatusFlag::Negative, value >= 0x80, read);
}

} // verus!
