//! The representation capability: a uniform interface over the primitive
//! fixed-width integers that can back a bounded type.
//!
//! Each backing width offers a signedness test and checked addition,
//! subtraction, multiplication, division, remainder and negation, all
//! specified against unbounded integer arithmetic. Division and remainder
//! truncate toward zero, as the native operations do.

use crate::arith::{lemma_trunc_div_rem_in_width, lemma_trunc_div_rem_nonneg, trunc_div, trunc_rem};
use vstd::prelude::*;

verus! {

/// A primitive fixed-width integer type usable as the representation of a
/// bounded type.
///
/// `as_int` is the numeric value; `in_width` describes the closed interval of
/// values the width can represent. The checked operations return the exact
/// mathematical result whenever it is representable and `None` otherwise;
/// they never wrap and never panic.
pub trait Repr: Sized + Copy {
    /// Numeric value of this representation value.
    spec fn as_int(self) -> int;

    /// True iff the width can represent `v`.
    spec fn in_width(v: int) -> bool;

    /// Every value of the type is within the width.
    proof fn lemma_as_int_in_width(self)
        ensures
            Self::in_width(self.as_int()),
    ;

    /// Returns true iff the value is below zero; always false for the
    /// unsigned widths.
    fn is_negative(self) -> (r: bool)
        ensures
            r == (self.as_int() < 0),
    ;

    /// Checked integer addition.
    fn checked_add(self, other: Self) -> (r: Option<Self>)
        ensures
            (match r {
                Some(v) => Self::in_width(self.as_int() + other.as_int()) && v.as_int()
                    == self.as_int() + other.as_int(),
                None => !Self::in_width(self.as_int() + other.as_int()),
            }),
    ;

    /// Checked integer subtraction.
    fn checked_sub(self, other: Self) -> (r: Option<Self>)
        ensures
            (match r {
                Some(v) => Self::in_width(self.as_int() - other.as_int()) && v.as_int()
                    == self.as_int() - other.as_int(),
                None => !Self::in_width(self.as_int() - other.as_int()),
            }),
    ;

    /// Checked integer multiplication.
    fn checked_mul(self, other: Self) -> (r: Option<Self>)
        ensures
            (match r {
                Some(v) => Self::in_width(self.as_int() * other.as_int()) && v.as_int()
                    == self.as_int() * other.as_int(),
                None => !Self::in_width(self.as_int() * other.as_int()),
            }),
    ;

    /// Checked integer division, truncating toward zero. `None` on a zero
    /// divisor and on the single quotient the width cannot represent.
    fn checked_div(self, other: Self) -> (r: Option<Self>)
        ensures
            (match r {
                Some(v) => other.as_int() != 0 && Self::in_width(
                    trunc_div(self.as_int(), other.as_int()),
                ) && v.as_int() == trunc_div(self.as_int(), other.as_int()),
                None => other.as_int() == 0 || !Self::in_width(
                    trunc_div(self.as_int(), other.as_int()),
                ),
            }),
    ;

    /// Checked integer remainder, with the sign of the dividend. `None`
    /// exactly when the corresponding division fails.
    fn checked_rem(self, other: Self) -> (r: Option<Self>)
        ensures
            (match r {
                Some(v) => other.as_int() != 0 && Self::in_width(
                    trunc_div(self.as_int(), other.as_int()),
                ) && v.as_int() == trunc_rem(self.as_int(), other.as_int()),
                None => other.as_int() == 0 || !Self::in_width(
                    trunc_div(self.as_int(), other.as_int()),
                ),
            }),
    ;

    /// Checked integer negation: `None` whenever the width cannot represent
    /// the negated value, so for unsigned widths on everything but zero and
    /// for signed widths on the minimum value alone.
    fn checked_neg(self) -> (r: Option<Self>)
        ensures
            (match r {
                Some(v) => Self::in_width(-self.as_int()) && v.as_int() == -self.as_int(),
                None => !Self::in_width(-self.as_int()),
            }),
    ;
}

impl Repr for u8 {
    open spec fn as_int(self) -> int {
        self as int
    }

    open spec fn in_width(v: int) -> bool {
        0 <= v && v <= u8::MAX as int
    }

    proof fn lemma_as_int_in_width(self) {
    }

    fn is_negative(self) -> (r: bool) {
        false
    }

    fn checked_add(self, other: Self) -> (r: Option<Self>) {
        u8::checked_add(self, other)
    }

    fn checked_sub(self, other: Self) -> (r: Option<Self>) {
        u8::checked_sub(self, other)
    }

    fn checked_mul(self, other: Self) -> (r: Option<Self>) {
        proof {
            assert(self as int * other as int >= 0) by (nonlinear_arith)
                requires
                    self as int >= 0,
                    other as int >= 0,
            ;
        }
        u8::checked_mul(self, other)
    }

    fn checked_div(self, other: Self) -> (r: Option<Self>) {
        proof {
            if other != 0 {
                lemma_trunc_div_rem_nonneg(self as int, other as int);
            }
        }
        u8::checked_div(self, other)
    }

    fn checked_rem(self, other: Self) -> (r: Option<Self>) {
        proof {
            if other != 0 {
                lemma_trunc_div_rem_nonneg(self as int, other as int);
            }
        }
        u8::checked_rem(self, other)
    }

    fn checked_neg(self) -> (r: Option<Self>) {
        if self == 0 {
            Some(0)
        } else {
            None
        }
    }
}

impl Repr for i8 {
    open spec fn as_int(self) -> int {
        self as int
    }

    open spec fn in_width(v: int) -> bool {
        i8::MIN as int <= v && v <= i8::MAX as int
    }

    proof fn lemma_as_int_in_width(self) {
    }

    fn is_negative(self) -> (r: bool) {
        self < 0
    }

    fn checked_add(self, other: Self) -> (r: Option<Self>) {
        i8::checked_add(self, other)
    }

    fn checked_sub(self, other: Self) -> (r: Option<Self>) {
        i8::checked_sub(self, other)
    }

    fn checked_mul(self, other: Self) -> (r: Option<Self>) {
        i8::checked_mul(self, other)
    }

    fn checked_div(self, other: Self) -> (r: Option<Self>) {
        i8::checked_div(self, other)
    }

    fn checked_rem(self, other: Self) -> (r: Option<Self>) {
        proof {
            if other != 0 {
                lemma_trunc_div_rem_in_width(self as int, other as int, i8::MAX as int);
            }
        }
        i8::checked_rem(self, other)
    }

    fn checked_neg(self) -> (r: Option<Self>) {
        if self == i8::MIN {
            None
        } else {
            Some(0 - self)
        }
    }
}

impl Repr for u16 {
    open spec fn as_int(self) -> int {
        self as int
    }

    open spec fn in_width(v: int) -> bool {
        0 <= v && v <= u16::MAX as int
    }

    proof fn lemma_as_int_in_width(self) {
    }

    fn is_negative(self) -> (r: bool) {
        false
    }

    fn checked_add(self, other: Self) -> (r: Option<Self>) {
        u16::checked_add(self, other)
    }

    fn checked_sub(self, other: Self) -> (r: Option<Self>) {
        u16::checked_sub(self, other)
    }

    fn checked_mul(self, other: Self) -> (r: Option<Self>) {
        proof {
            assert(self as int * other as int >= 0) by (nonlinear_arith)
                requires
                    self as int >= 0,
                    other as int >= 0,
            ;
        }
        u16::checked_mul(self, other)
    }

    fn checked_div(self, other: Self) -> (r: Option<Self>) {
        proof {
            if other != 0 {
                lemma_trunc_div_rem_nonneg(self as int, other as int);
            }
        }
        u16::checked_div(self, other)
    }

    fn checked_rem(self, other: Self) -> (r: Option<Self>) {
        proof {
            if other != 0 {
                lemma_trunc_div_rem_nonneg(self as int, other as int);
            }
        }
        u16::checked_rem(self, other)
    }

    fn checked_neg(self) -> (r: Option<Self>) {
        if self == 0 {
            Some(0)
        } else {
            None
        }
    }
}


impl Repr for u32 {
    open spec fn as_int(self) -> int {
        self as int
    }

    open spec fn in_width(v: int) -> bool {
        0 <= v && v <= u32::MAX as int
    }

    proof fn lemma_as_int_in_width(self) {
    }

    fn is_negative(self) -> (r: bool) {
        false
    }

    fn checked_add(self, other: Self) -> (r: Option<Self>) {
        u32::checked_add(self, other)
    }

    fn checked_sub(self, other: Self) -> (r: Option<Self>) {
        u32::checked_sub(self, other)
    }

    fn checked_mul(self, other: Self) -> (r: Option<Self>) {
        proof {
            assert(self as int * other as int >= 0) by (nonlinear_arith)
                requires
                    self as int >= 0,
                    other as int >= 0,
            ;
        }
        u32::checked_mul(self, other)
    }

    fn checked_div(self, other: Self) -> (r: Option<Self>) {
        proof {
            if other != 0 {
                lemma_trunc_div_rem_nonneg(self as int, other as int);
            }
        }
        u32::checked_div(self, other)
    }

    fn checked_rem(self, other: Self) -> (r: Option<Self>) {
        proof {
            if other != 0 {
                lemma_trunc_div_rem_nonneg(self as int, other as int);
            }
        }
        u32::checked_rem(self, other)
    }

    fn checked_neg(self) -> (r: Option<Self>) {
        if self == 0 {
            Some(0)
        } else {
            None
        }
    }
}


impl Repr for u64 {
    open spec fn as_int(self) -> int {
        self as int
    }

    open spec fn in_width(v: int) -> bool {
        0 <= v && v <= u64::MAX as int
    }

    proof fn lemma_as_int_in_width(self) {
    }

    fn is_negative(self) -> (r: bool) {
        false
    }

    fn checked_add(self, other: Self) -> (r: Option<Self>) {
        u64::checked_add(self, other)
    }

    fn checked_sub(self, other: Self) -> (r: Option<Self>) {
        u64::checked_sub(self, other)
    }

    fn checked_mul(self, other: Self) -> (r: Option<Self>) {
        proof {
            assert(self as int * other as int >= 0) by (nonlinear_arith)
                requires
                    self as int >= 0,
                    other as int >= 0,
            ;
        }
        u64::checked_mul(self, other)
    }

    fn checked_div(self, other: Self) -> (r: Option<Self>) {
        proof {
            if other != 0 {
                lemma_trunc_div_rem_nonneg(self as int, other as int);
            }
        }
        u64::checked_div(self, other)
    }

    fn checked_rem(self, other: Self) -> (r: Option<Self>) {
        proof {
            if other != 0 {
                lemma_trunc_div_rem_nonneg(self as int, other as int);
            }
        }
        u64::checked_rem(self, other)
    }

    fn checked_neg(self) -> (r: Option<Self>) {
        if self == 0 {
            Some(0)
        } else {
            None
        }
    }
}


impl Repr for i16 {
    open spec fn as_int(self) -> int {
        self as int
    }

    open spec fn in_width(v: int) -> bool {
        i16::MIN as int <= v && v <= i16::MAX as int
    }

    proof fn lemma_as_int_in_width(self) {
    }

    fn is_negative(self) -> (r: bool) {
        self < 0
    }

    fn checked_add(self, other: Self) -> (r: Option<Self>) {
        i16::checked_add(self, other)
    }

    fn checked_sub(self, other: Self) -> (r: Option<Self>) {
        i16::checked_sub(self, other)
    }

    fn checked_mul(self, other: Self) -> (r: Option<Self>) {
        i16::checked_mul(self, other)
    }

    fn checked_div(self, other: Self) -> (r: Option<Self>) {
        i16::checked_div(self, other)
    }

    fn checked_rem(self, other: Self) -> (r: Option<Self>) {
        proof {
            if other != 0 {
                lemma_trunc_div_rem_in_width(self as int, other as int, i16::MAX as int);
            }
        }
        i16::checked_rem(self, other)
    }

    fn checked_neg(self) -> (r: Option<Self>) {
        if self == i16::MIN {
            None
        } else {
            Some(0 - self)
        }
    }
}


impl Repr for i32 {
    open spec fn as_int(self) -> int {
        self as int
    }

    open spec fn in_width(v: int) -> bool {
        i32::MIN as int <= v && v <= i32::MAX as int
    }

    proof fn lemma_as_int_in_width(self) {
    }

    fn is_negative(self) -> (r: bool) {
        self < 0
    }

    fn checked_add(self, other: Self) -> (r: Option<Self>) {
        i32::checked_add(self, other)
    }

    fn checked_sub(self, other: Self) -> (r: Option<Self>) {
        i32::checked_sub(self, other)
    }

    fn checked_mul(self, other: Self) -> (r: Option<Self>) {
        i32::checked_mul(self, other)
    }

    fn checked_div(self, other: Self) -> (r: Option<Self>) {
        i32::checked_div(self, other)
    }

    fn checked_rem(self, other: Self) -> (r: Option<Self>) {
        proof {
            if other != 0 {
                lemma_trunc_div_rem_in_width(self as int, other as int, i32::MAX as int);
            }
        }
        i32::checked_rem(self, other)
    }

    fn checked_neg(self) -> (r: Option<Self>) {
        if self == i32::MIN {
            None
        } else {
            Some(0 - self)
        }
    }
}


impl Repr for i64 {
    open spec fn as_int(self) -> int {
        self as int
    }

    open spec fn in_width(v: int) -> bool {
        i64::MIN as int <= v && v <= i64::MAX as int
    }

    proof fn lemma_as_int_in_width(self) {
    }

    fn is_negative(self) -> (r: bool) {
        self < 0
    }

    fn checked_add(self, other: Self) -> (r: Option<Self>) {
        i64::checked_add(self, other)
    }

    fn checked_sub(self, other: Self) -> (r: Option<Self>) {
        i64::checked_sub(self, other)
    }

    fn checked_mul(self, other: Self) -> (r: Option<Self>) {
        i64::checked_mul(self, other)
    }

    fn checked_div(self, other: Self) -> (r: Option<Self>) {
        i64::checked_div(self, other)
    }

    fn checked_rem(self, other: Self) -> (r: Option<Self>) {
        proof {
            if other != 0 {
                lemma_trunc_div_rem_in_width(self as int, other as int, i64::MAX as int);
            }
        }
        i64::checked_rem(self, other)
    }

    fn checked_neg(self) -> (r: Option<Self>) {
        if self == i64::MIN {
            None
        } else {
            Some(0 - self)
        }
    }
}

} // verus!
