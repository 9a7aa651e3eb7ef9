//! Bounded integers: enum types whose values cover a closed, contiguous range
//! of integers, with checked and saturating arithmetic that behaves like the
//! native fixed-width operations while confining every result to the range.

use vstd::prelude::*;

pub mod arith;
pub mod bit;
pub mod int_lit;
pub mod nibble;
pub mod repr;
pub mod trit;

use crate::arith::{trunc_div, trunc_rem};
use crate::repr::Repr;

verus! {

/// True iff `v` lies in the closed interval `[lo, hi]`.
pub open spec fn within(lo: int, v: int, hi: int) -> bool {
    lo <= v && v <= hi
}

/// Bounded integer.
///
/// A bounded type stands for the integers of a closed interval
/// `[min_int(), max_int()]` inside its backing representation width. Every
/// live value corresponds to exactly one integer of the interval (`value`),
/// conversion to the representation is total and injective, conversion from
/// the representation succeeds exactly on the interval, and the checked and
/// saturating operations compute the exact integer result whenever it lies in
/// the interval.
pub trait BoundedInteger: Sized + Copy + PartialEq + Eq {
    /// Integer representation backing the type.
    type Repr: Repr;

    /// Numeric value this bounded value stands for.
    spec fn value(self) -> int;

    /// Lower bound of the type, as an integer.
    spec fn min_int() -> int;

    /// Upper bound of the type, as an integer.
    spec fn max_int() -> int;

    /// The bounds are ordered and the whole interval fits in the
    /// representation width.
    proof fn lemma_bounds()
        ensures
            Self::min_int() <= Self::max_int(),
            forall|v: int|
                within(Self::min_int(), v, Self::max_int()) ==> #[trigger] <Self::Repr as Repr>::in_width(
                    v,
                ),
    ;

    /// Every value of the type lies within the declared bounds.
    proof fn lemma_value_in_range(self)
        ensures
            within(Self::min_int(), self.value(), Self::max_int()),
    ;

    /// Two values standing for the same integer are the same value.
    proof fn lemma_value_injective(self, other: Self)
        ensures
            self.value() == other.value() ==> self == other,
    ;

    /// Converts from representation to Self: succeeds exactly when the
    /// representation value lies within the bounds.
    fn from_repr(repr: Self::Repr) -> (r: Option<Self>)
        ensures
            (match r {
                Some(v) => within(Self::min_int(), repr.as_int(), Self::max_int()) && v.value()
                    == repr.as_int(),
                None => !within(Self::min_int(), repr.as_int(), Self::max_int()),
            }),
    ;

    /// Converts from Self to its unique representation value.
    fn to_repr(self) -> (r: Self::Repr)
        ensures
            r.as_int() == self.value(),
    ;

    /// Returns the smallest value of the type.
    fn min_value() -> (r: Self)
        ensures
            r.value() == Self::min_int(),
    ;

    /// Returns the largest value of the type.
    fn max_value() -> (r: Self)
        ensures
            r.value() == Self::max_int(),
    ;

    /// Checked integer addition.
    fn checked_add(self, other: Self) -> (r: Option<Self>)
        ensures
            (match r {
                Some(v) => within(Self::min_int(), self.value() + other.value(), Self::max_int())
                    && v.value() == self.value() + other.value(),
                None => !within(Self::min_int(), self.value() + other.value(), Self::max_int()),
            }),
    {
        self.checked_add_repr(other.to_repr())
    }

    /// Checked integer addition with representation.
    fn checked_add_repr(self, other: Self::Repr) -> (r: Option<Self>)
        ensures
            (match r {
                Some(v) => within(Self::min_int(), self.value() + other.as_int(), Self::max_int())
                    && v.value() == self.value() + other.as_int(),
                None => !within(Self::min_int(), self.value() + other.as_int(), Self::max_int()),
            }),
    {
        proof {
            Self::lemma_bounds();
        }
        match self.to_repr().checked_add(other) {
            Some(s) => Self::from_repr(s),
            None => None,
        }
    }

    /// Checked integer subtraction.
    fn checked_sub(self, other: Self) -> (r: Option<Self>)
        ensures
            (match r {
                Some(v) => within(Self::min_int(), self.value() - other.value(), Self::max_int())
                    && v.value() == self.value() - other.value(),
                None => !within(Self::min_int(), self.value() - other.value(), Self::max_int()),
            }),
    {
        self.checked_sub_repr(other.to_repr())
    }

    /// Checked integer subtraction with representation.
    fn checked_sub_repr(self, other: Self::Repr) -> (r: Option<Self>)
        ensures
            (match r {
                Some(v) => within(Self::min_int(), self.value() - other.as_int(), Self::max_int())
                    && v.value() == self.value() - other.as_int(),
                None => !within(Self::min_int(), self.value() - other.as_int(), Self::max_int()),
            }),
    {
        proof {
            Self::lemma_bounds();
        }
        match self.to_repr().checked_sub(other) {
            Some(s) => Self::from_repr(s),
            None => None,
        }
    }

    /// Checked integer multiplication.
    fn checked_mul(self, other: Self) -> (r: Option<Self>)
        ensures
            (match r {
                Some(v) => within(Self::min_int(), self.value() * other.value(), Self::max_int())
                    && v.value() == self.value() * other.value(),
                None => !within(Self::min_int(), self.value() * other.value(), Self::max_int()),
            }),
    {
        self.checked_mul_repr(other.to_repr())
    }

    /// Checked integer multiplication with representation.
    fn checked_mul_repr(self, other: Self::Repr) -> (r: Option<Self>)
        ensures
            (match r {
                Some(v) => within(Self::min_int(), self.value() * other.as_int(), Self::max_int())
                    && v.value() == self.value() * other.as_int(),
                None => !within(Self::min_int(), self.value() * other.as_int(), Self::max_int()),
            }),
    {
        proof {
            Self::lemma_bounds();
        }
        match self.to_repr().checked_mul(other) {
            Some(s) => Self::from_repr(s),
            None => None,
        }
    }

    /// Checked integer division, truncating toward zero.
    fn checked_div(self, other: Self) -> (r: Option<Self>)
        ensures
            (match r {
                Some(v) => other.value() != 0 && within(
                    Self::min_int(),
                    trunc_div(self.value(), other.value()),
                    Self::max_int(),
                ) && v.value() == trunc_div(self.value(), other.value()),
                None => other.value() == 0 || !within(
                    Self::min_int(),
                    trunc_div(self.value(), other.value()),
                    Self::max_int(),
                ),
            }),
    {
        self.checked_div_repr(other.to_repr())
    }

    /// Checked integer division with representation.
    fn checked_div_repr(self, other: Self::Repr) -> (r: Option<Self>)
        ensures
            (match r {
                Some(v) => other.as_int() != 0 && within(
                    Self::min_int(),
                    trunc_div(self.value(), other.as_int()),
                    Self::max_int(),
                ) && v.value() == trunc_div(self.value(), other.as_int()),
                None => other.as_int() == 0 || !within(
                    Self::min_int(),
                    trunc_div(self.value(), other.as_int()),
                    Self::max_int(),
                ),
            }),
    {
        proof {
            Self::lemma_bounds();
        }
        match self.to_repr().checked_div(other) {
            Some(s) => Self::from_repr(s),
            None => None,
        }
    }

    /// Checked integer remainder, with the sign of the dividend. Fails
    /// exactly when the divisor is zero, when the corresponding quotient
    /// overflows the representation width, or when the remainder escapes the
    /// bounds.
    fn checked_rem(self, other: Self) -> (r: Option<Self>)
        ensures
            (match r {
                Some(v) => other.value() != 0 && <Self::Repr as Repr>::in_width(
                    trunc_div(self.value(), other.value()),
                ) && within(
                    Self::min_int(),
                    trunc_rem(self.value(), other.value()),
                    Self::max_int(),
                ) && v.value() == trunc_rem(self.value(), other.value()),
                None => other.value() == 0 || !<Self::Repr as Repr>::in_width(
                    trunc_div(self.value(), other.value()),
                ) || !within(
                    Self::min_int(),
                    trunc_rem(self.value(), other.value()),
                    Self::max_int(),
                ),
            }),
    {
        self.checked_rem_repr(other.to_repr())
    }

    /// Checked integer remainder with representation.
    fn checked_rem_repr(self, other: Self::Repr) -> (r: Option<Self>)
        ensures
            (match r {
                Some(v) => other.as_int() != 0 && <Self::Repr as Repr>::in_width(
                    trunc_div(self.value(), other.as_int()),
                ) && within(
                    Self::min_int(),
                    trunc_rem(self.value(), other.as_int()),
                    Self::max_int(),
                ) && v.value() == trunc_rem(self.value(), other.as_int()),
                None => other.as_int() == 0 || !<Self::Repr as Repr>::in_width(
                    trunc_div(self.value(), other.as_int()),
                ) || !within(
                    Self::min_int(),
                    trunc_rem(self.value(), other.as_int()),
                    Self::max_int(),
                ),
            }),
    {
        match self.to_repr().checked_rem(other) {
            Some(s) => Self::from_repr(s),
            None => None,
        }
    }

    /// Checked integer negation.
    fn checked_neg(self) -> (r: Option<Self>)
        ensures
            (match r {
                Some(v) => within(Self::min_int(), -self.value(), Self::max_int()) && v.value()
                    == -self.value(),
                None => !within(Self::min_int(), -self.value(), Self::max_int()),
            }),
    {
        proof {
            Self::lemma_bounds();
        }
        match self.to_repr().checked_neg() {
            Some(s) => Self::from_repr(s),
            None => None,
        }
    }

    /// Saturating integer addition.
    fn saturating_add(self, other: Self) -> (r: Self)
        ensures
            ({
                let s = self.value() + other.value();
                if within(Self::min_int(), s, Self::max_int()) {
                    r.value() == s
                } else if other.value() < 0 {
                    r.value() == Self::min_int()
                } else {
                    r.value() == Self::max_int()
                }
            }),
    {
        self.saturating_add_repr(other.to_repr())
    }

    /// Saturating integer addition with representation: on overflow, clamps
    /// to the minimum for a negative right operand and to the maximum
    /// otherwise.
    fn saturating_add_repr(self, other: Self::Repr) -> (r: Self)
        ensures
            ({
                let s = self.value() + other.as_int();
                if within(Self::min_int(), s, Self::max_int()) {
                    r.value() == s
                } else if other.as_int() < 0 {
                    r.value() == Self::min_int()
                } else {
                    r.value() == Self::max_int()
                }
            }),
    {
        if other.is_negative() {
            match self.checked_add_repr(other) {
                Some(v) => v,
                None => Self::min_value(),
            }
        } else {
            match self.checked_add_repr(other) {
                Some(v) => v,
                None => Self::max_value(),
            }
        }
    }

    /// Saturating integer subtraction.
    fn saturating_sub(self, other: Self) -> (r: Self)
        ensures
            ({
                let s = self.value() - other.value();
                if within(Self::min_int(), s, Self::max_int()) {
                    r.value() == s
                } else if other.value() < 0 {
                    r.value() == Self::max_int()
                } else {
                    r.value() == Self::min_int()
                }
            }),
    {
        self.saturating_sub_repr(other.to_repr())
    }

    /// Saturating integer subtraction with representation: on overflow,
    /// clamps to the maximum for a negative right operand and to the minimum
    /// otherwise.
    fn saturating_sub_repr(self, other: Self::Repr) -> (r: Self)
        ensures
            ({
                let s = self.value() - other.as_int();
                if within(Self::min_int(), s, Self::max_int()) {
                    r.value() == s
                } else if other.as_int() < 0 {
                    r.value() == Self::max_int()
                } else {
                    r.value() == Self::min_int()
                }
            }),
    {
        if other.is_negative() {
            match self.checked_sub_repr(other) {
                Some(v) => v,
                None => Self::max_value(),
            }
        } else {
            match self.checked_sub_repr(other) {
                Some(v) => v,
                None => Self::min_value(),
            }
        }
    }

    /// Saturating integer multiplication.
    fn saturating_mul(self, other: Self) -> (r: Self)
        ensures
            ({
                let p = self.value() * other.value();
                if within(Self::min_int(), p, Self::max_int()) {
                    r.value() == p
                } else if (self.value() < 0) == (other.value() < 0) {
                    r.value() == Self::max_int()
                } else {
                    r.value() == Self::min_int()
                }
            }),
    {
        self.saturating_mul_repr(other.to_repr())
    }

    /// Saturating integer multiplication with representation: on overflow,
    /// clamps to the maximum when the operand signs agree and to the minimum
    /// when they differ.
    fn saturating_mul_repr(self, other: Self::Repr) -> (r: Self)
        ensures
            ({
                let p = self.value() * other.as_int();
                if within(Self::min_int(), p, Self::max_int()) {
                    r.value() == p
                } else if (self.value() < 0) == (other.as_int() < 0) {
                    r.value() == Self::max_int()
                } else {
                    r.value() == Self::min_int()
                }
            }),
    {
        if self.to_repr().is_negative() == other.is_negative() {
            match self.checked_mul_repr(other) {
                Some(v) => v,
                None => Self::max_value(),
            }
        } else {
            match self.checked_mul_repr(other) {
                Some(v) => v,
                None => Self::min_value(),
            }
        }
    }

    /// Addition operator: the exact sum must lie within the bounds.
    fn add(self, other: Self) -> (r: Self)
        requires
            within(Self::min_int(), self.value() + other.value(), Self::max_int()),
        ensures
            r.value() == self.value() + other.value(),
    {
        self.checked_add(other).unwrap()
    }

    /// Addition operator with representation.
    fn add_repr(self, other: Self::Repr) -> (r: Self)
        requires
            within(Self::min_int(), self.value() + other.as_int(), Self::max_int()),
        ensures
            r.value() == self.value() + other.as_int(),
    {
        self.checked_add_repr(other).unwrap()
    }

    /// Subtraction operator: the exact difference must lie within the bounds.
    fn sub(self, other: Self) -> (r: Self)
        requires
            within(Self::min_int(), self.value() - other.value(), Self::max_int()),
        ensures
            r.value() == self.value() - other.value(),
    {
        self.checked_sub(other).unwrap()
    }

    /// Subtraction operator with representation.
    fn sub_repr(self, other: Self::Repr) -> (r: Self)
        requires
            within(Self::min_int(), self.value() - other.as_int(), Self::max_int()),
        ensures
            r.value() == self.value() - other.as_int(),
    {
        self.checked_sub_repr(other).unwrap()
    }

    /// Multiplication operator: the exact product must lie within the bounds.
    fn mul(self, other: Self) -> (r: Self)
        requires
            within(Self::min_int(), self.value() * other.value(), Self::max_int()),
        ensures
            r.value() == self.value() * other.value(),
    {
        self.checked_mul(other).unwrap()
    }

    /// Multiplication operator with representation.
    fn mul_repr(self, other: Self::Repr) -> (r: Self)
        requires
            within(Self::min_int(), self.value() * other.as_int(), Self::max_int()),
        ensures
            r.value() == self.value() * other.as_int(),
    {
        self.checked_mul_repr(other).unwrap()
    }

    /// Division operator: the divisor must be non-zero and the truncated
    /// quotient must lie within the bounds.
    fn div(self, other: Self) -> (r: Self)
        requires
            other.value() != 0,
            within(Self::min_int(), trunc_div(self.value(), other.value()), Self::max_int()),
        ensures
            r.value() == trunc_div(self.value(), other.value()),
    {
        self.checked_div(other).unwrap()
    }

    /// Division operator with representation.
    fn div_repr(self, other: Self::Repr) -> (r: Self)
        requires
            other.as_int() != 0,
            within(Self::min_int(), trunc_div(self.value(), other.as_int()), Self::max_int()),
        ensures
            r.value() == trunc_div(self.value(), other.as_int()),
    {
        self.checked_div_repr(other).unwrap()
    }

    /// Remainder operator: the corresponding checked remainder must succeed.
    fn rem(self, other: Self) -> (r: Self)
        requires
            other.value() != 0,
            <Self::Repr as Repr>::in_width(trunc_div(self.value(), other.value())),
            within(Self::min_int(), trunc_rem(self.value(), other.value()), Self::max_int()),
        ensures
            r.value() == trunc_rem(self.value(), other.value()),
    {
        self.checked_rem(other).unwrap()
    }

    /// Remainder operator with representation.
    fn rem_repr(self, other: Self::Repr) -> (r: Self)
        requires
            other.as_int() != 0,
            <Self::Repr as Repr>::in_width(trunc_div(self.value(), other.as_int())),
            within(Self::min_int(), trunc_rem(self.value(), other.as_int()), Self::max_int()),
        ensures
            r.value() == trunc_rem(self.value(), other.as_int()),
    {
        self.checked_rem_repr(other).unwrap()
    }

    /// Negation operator: the exact negated value must lie within the bounds.
    fn neg(self) -> (r: Self)
        requires
            within(Self::min_int(), -self.value(), Self::max_int()),
        ensures
            r.value() == -self.value(),
    {
        self.checked_neg().unwrap()
    }
}

/// Round-trip law: for every bounded value, converting to the representation
/// and back yields the same value again.
pub fn round_trip<B: BoundedInteger>(v: B) -> (r: Option<B>)
    ensures
        r == Some(v),
{
    let r = B::from_repr(v.to_repr());
    proof {
        v.lemma_value_in_range();
        match r {
            Some(w) => w.lemma_value_injective(v),
            None => {},
        }
    }
    r
}

/// Operator law: wherever checked addition succeeds, the panicking addition
/// operator returns exactly its value.
pub fn add_agrees_with_checked<B: BoundedInteger>(a: B, b: B) -> (r: (B, B))
    requires
        within(B::min_int(), a.value() + b.value(), B::max_int()),
    ensures
        r.0 == r.1,
{
    let s = a.add(b);
    let c = a.checked_add(b).unwrap();
    proof {
        s.lemma_value_injective(c);
    }
    (s, c)
}

/// Saturation law for addition: the result is the checked result wherever
/// that exists, and otherwise the bound picked by the sign of the right
/// operand.
pub fn saturating_add_agrees<B: BoundedInteger>(a: B, b: B) -> (r: (B, Option<B>))
    ensures
        r.1 matches Some(v) ==> r.0 == v,
        r.1 is None && b.value() < 0 ==> r.0.value() == B::min_int(),
        r.1 is None && b.value() >= 0 ==> r.0.value() == B::max_int(),
{
    let s = a.saturating_add(b);
    let c = a.checked_add(b);
    proof {
        match c {
            Some(v) => s.lemma_value_injective(v),
            None => {},
        }
    }
    (s, c)
}

/// Saturation law for subtraction: the result is the checked result wherever
/// that exists, and otherwise the bound opposite to the sign of the right
/// operand.
pub fn saturating_sub_agrees<B: BoundedInteger>(a: B, b: B) -> (r: (B, Option<B>))
    ensures
        r.1 matches Some(v) ==> r.0 == v,
        r.1 is None && b.value() < 0 ==> r.0.value() == B::max_int(),
        r.1 is None && b.value() >= 0 ==> r.0.value() == B::min_int(),
{
    let s = a.saturating_sub(b);
    let c = a.checked_sub(b);
    proof {
        match c {
            Some(v) => s.lemma_value_injective(v),
            None => {},
        }
    }
    (s, c)
}

/// Saturation law for multiplication: the result is the checked result
/// wherever that exists, and otherwise the maximum when the operand signs
/// agree and the minimum when they differ.
pub fn saturating_mul_agrees<B: BoundedInteger>(a: B, b: B) -> (r: (B, Option<B>))
    ensures
        r.1 matches Some(v) ==> r.0 == v,
        r.1 is None && (a.value() < 0) == (b.value() < 0) ==> r.0.value() == B::max_int(),
        r.1 is None && (a.value() < 0) != (b.value() < 0) ==> r.0.value() == B::min_int(),
{
    let s = a.saturating_mul(b);
    let c = a.checked_mul(b);
    proof {
        match c {
            Some(v) => s.lemma_value_injective(v),
            None => {},
        }
    }
    (s, c)
}

} // verus!
