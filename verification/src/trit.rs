//! Trits.

use core::cmp::Ordering;
use crate::repr::Repr;
use crate::BoundedInteger;
use vstd::prelude::*;

verus! {

/// An unsigned trit: the range `[0, 2]` backed by a byte.
#[derive(Debug, Clone, Copy, PartialEq, Eq, PartialOrd, Ord, Hash)]
pub enum UTrit {
    U0,
    U1,
    U2,
}

impl BoundedInteger for UTrit {
    type Repr = u8;

    open spec fn value(self) -> int {
        match self {
            UTrit::U0 => 0,
            UTrit::U1 => 1,
            UTrit::U2 => 2,
        }
    }

    open spec fn min_int() -> int {
        0
    }

    open spec fn max_int() -> int {
        2
    }

    proof fn lemma_bounds() {
        assert forall|v: int|
            crate::within(Self::min_int(), v, Self::max_int()) implies #[trigger] <u8 as Repr>::in_width(
            v,
        ) by {}
    }

    proof fn lemma_value_in_range(self) {
    }

    proof fn lemma_value_injective(self, other: Self) {
    }

    fn from_repr(repr: u8) -> (r: Option<Self>) {
        match repr {
            0u8 => Some(UTrit::U0),
            1u8 => Some(UTrit::U1),
            2u8 => Some(UTrit::U2),
            _ => None,
        }
    }

    fn to_repr(self) -> (r: u8) {
        match self {
            UTrit::U0 => 0,
            UTrit::U1 => 1,
            UTrit::U2 => 2,
        }
    }

    fn min_value() -> (r: Self) {
        UTrit::U0
    }

    fn max_value() -> (r: Self) {
        UTrit::U2
    }
}

/// A signed (balanced) trit: the range `[-1, 1]` backed by a signed byte.
///
/// Its ordering is defined by the numeric value, not by the position the
/// wrapped bit pattern of the representation would give.
#[derive(Debug, Clone, Copy, PartialEq, Eq, Ord, Hash)]
pub enum STrit {
    N1,
    U0,
    P1,
}

impl BoundedInteger for STrit {
    type Repr = i8;

    open spec fn value(self) -> int {
        match self {
            STrit::N1 => -1,
            STrit::U0 => 0,
            STrit::P1 => 1,
        }
    }

    open spec fn min_int() -> int {
        -1
    }

    open spec fn max_int() -> int {
        1
    }

    proof fn lemma_bounds() {
        assert forall|v: int|
            crate::within(Self::min_int(), v, Self::max_int()) implies #[trigger] <i8 as Repr>::in_width(
            v,
        ) by {}
    }

    proof fn lemma_value_in_range(self) {
    }

    proof fn lemma_value_injective(self, other: Self) {
    }

    fn from_repr(repr: i8) -> (r: Option<Self>) {
        match repr {
            -1i8 => Some(STrit::N1),
            0i8 => Some(STrit::U0),
            1i8 => Some(STrit::P1),
            _ => None,
        }
    }

    fn to_repr(self) -> (r: i8) {
        match self {
            STrit::N1 => -1,
            STrit::U0 => 0,
            STrit::P1 => 1,
        }
    }

    fn min_value() -> (r: Self) {
        STrit::N1
    }

    fn max_value() -> (r: Self) {
        STrit::P1
    }
}

impl PartialOrd for STrit {
    fn partial_cmp(&self, other: &Self) -> (r: Option<Ordering>) {
        let a = self.to_repr();
        let b = other.to_repr();
        if a < b {
            Some(Ordering::Less)
        } else if a == b {
            Some(Ordering::Equal)
        } else {
            Some(Ordering::Greater)
        }
    }
}

impl vstd::std_specs::cmp::PartialOrdSpecImpl for STrit {
    open spec fn obeys_partial_cmp_spec() -> bool {
        true
    }

    open spec fn partial_cmp_spec(&self, other: &Self) -> Option<Ordering> {
        if self.value() < other.value() {
            Some(Ordering::Less)
        } else if self.value() == other.value() {
            Some(Ordering::Equal)
        } else {
            Some(Ordering::Greater)
        }
    }
}

/// Ordering law: comparison of signed trits follows the numeric value, so
/// `N1 < U0 < P1`, even where the stored bit pattern of the representation
/// wraps.
pub fn strit_lt_by_value(a: STrit, b: STrit) -> (r: bool)
    ensures
        r == (a.value() < b.value()),
{
    a < b
}

impl From<STrit> for i8 {
    fn from(v: STrit) -> (r: i8) {
        v.to_repr()
    }
}

impl vstd::std_specs::convert::FromSpecImpl<STrit> for i8 {
    open spec fn obeys_from_spec() -> bool {
        true
    }

    open spec fn from_spec(v: STrit) -> i8 {
        v.value() as i8
    }
}

} // verus!
