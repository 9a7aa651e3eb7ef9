//! Nibbles.

use core::cmp::Ordering;
use crate::repr::Repr;
use crate::BoundedInteger;
use vstd::prelude::*;

verus! {

/// An unsigned nibble: the range `[0, 15]` backed by a byte.
#[derive(Debug, Clone, Copy, PartialEq, Eq, PartialOrd, Ord, Hash)]
pub enum UNibble {
    U0,
    U1,
    U2,
    U3,
    U4,
    U5,
    U6,
    U7,
    U8,
    U9,
    U10,
    U11,
    U12,
    U13,
    U14,
    U15,
}

impl BoundedInteger for UNibble {
    type Repr = u8;

    open spec fn value(self) -> int {
        match self {
            UNibble::U0 => 0,
            UNibble::U1 => 1,
            UNibble::U2 => 2,
            UNibble::U3 => 3,
            UNibble::U4 => 4,
            UNibble::U5 => 5,
            UNibble::U6 => 6,
            UNibble::U7 => 7,
            UNibble::U8 => 8,
            UNibble::U9 => 9,
            UNibble::U10 => 10,
            UNibble::U11 => 11,
            UNibble::U12 => 12,
            UNibble::U13 => 13,
            UNibble::U14 => 14,
            UNibble::U15 => 15,
        }
    }

    open spec fn min_int() -> int {
        0
    }

    open spec fn max_int() -> int {
        15
    }

    proof fn lemma_bounds() {
        assert forall|v: int|
            crate::within(Self::min_int(), v, Self::max_int()) implies #[trigger] <u8 as Repr>::in_width(
            v,
        ) by {}
    }

    proof fn lemma_value_in_range(self) {
    }

    proof fn lemma_value_injective(self, other: Self) {
    }

    fn from_repr(repr: u8) -> (r: Option<Self>) {
        match repr {
            0u8 => Some(UNibble::U0),
            1u8 => Some(UNibble::U1),
            2u8 => Some(UNibble::U2),
            3u8 => Some(UNibble::U3),
            4u8 => Some(UNibble::U4),
            5u8 => Some(UNibble::U5),
            6u8 => Some(UNibble::U6),
            7u8 => Some(UNibble::U7),
            8u8 => Some(UNibble::U8),
            9u8 => Some(UNibble::U9),
            10u8 => Some(UNibble::U10),
            11u8 => Some(UNibble::U11),
            12u8 => Some(UNibble::U12),
            13u8 => Some(UNibble::U13),
            14u8 => Some(UNibble::U14),
            15u8 => Some(UNibble::U15),
            _ => None,
        }
    }

    fn to_repr(self) -> (r: u8) {
        match self {
            UNibble::U0 => 0,
            UNibble::U1 => 1,
            UNibble::U2 => 2,
            UNibble::U3 => 3,
            UNibble::U4 => 4,
            UNibble::U5 => 5,
            UNibble::U6 => 6,
            UNibble::U7 => 7,
            UNibble::U8 => 8,
            UNibble::U9 => 9,
            UNibble::U10 => 10,
            UNibble::U11 => 11,
            UNibble::U12 => 12,
            UNibble::U13 => 13,
            UNibble::U14 => 14,
            UNibble::U15 => 15,
        }
    }

    fn min_value() -> (r: Self) {
        UNibble::U0
    }

    fn max_value() -> (r: Self) {
        UNibble::U15
    }
}

/// A signed nibble: the range `[-8, 7]` backed by a signed byte.
///
/// Stored in a byte, `-8` sits in the bit pattern `248`: ordering therefore
/// goes by the numeric value, never by the wrapped bit pattern, so
/// `N8 < N7 < ... < U0 < ... < P7`.
#[derive(Debug, Clone, Copy, PartialEq, Eq, Ord, Hash)]
pub enum SNibble {
    N8,
    N7,
    N6,
    N5,
    N4,
    N3,
    N2,
    N1,
    U0,
    P1,
    P2,
    P3,
    P4,
    P5,
    P6,
    P7,
}

impl BoundedInteger for SNibble {
    type Repr = i8;

    open spec fn value(self) -> int {
        match self {
            SNibble::N8 => -8,
            SNibble::N7 => -7,
            SNibble::N6 => -6,
            SNibble::N5 => -5,
            SNibble::N4 => -4,
            SNibble::N3 => -3,
            SNibble::N2 => -2,
            SNibble::N1 => -1,
            SNibble::U0 => 0,
            SNibble::P1 => 1,
            SNibble::P2 => 2,
            SNibble::P3 => 3,
            SNibble::P4 => 4,
            SNibble::P5 => 5,
            SNibble::P6 => 6,
            SNibble::P7 => 7,
        }
    }

    open spec fn min_int() -> int {
        -8
    }

    open spec fn max_int() -> int {
        7
    }

    proof fn lemma_bounds() {
        assert forall|v: int|
            crate::within(Self::min_int(), v, Self::max_int()) implies #[trigger] <i8 as Repr>::in_width(
            v,
        ) by {}
    }

    proof fn lemma_value_in_range(self) {
    }

    proof fn lemma_value_injective(self, other: Self) {
    }

    fn from_repr(repr: i8) -> (r: Option<Self>) {
        match repr {
            -8i8 => Some(SNibble::N8),
            -7i8 => Some(SNibble::N7),
            -6i8 => Some(SNibble::N6),
            -5i8 => Some(SNibble::N5),
            -4i8 => Some(SNibble::N4),
            -3i8 => Some(SNibble::N3),
            -2i8 => Some(SNibble::N2),
            -1i8 => Some(SNibble::N1),
            0i8 => Some(SNibble::U0),
            1i8 => Some(SNibble::P1),
            2i8 => Some(SNibble::P2),
            3i8 => Some(SNibble::P3),
            4i8 => Some(SNibble::P4),
            5i8 => Some(SNibble::P5),
            6i8 => Some(SNibble::P6),
            7i8 => Some(SNibble::P7),
            _ => None,
        }
    }

    fn to_repr(self) -> (r: i8) {
        match self {
            SNibble::N8 => -8,
            SNibble::N7 => -7,
            SNibble::N6 => -6,
            SNibble::N5 => -5,
            SNibble::N4 => -4,
            SNibble::N3 => -3,
            SNibble::N2 => -2,
            SNibble::N1 => -1,
            SNibble::U0 => 0,
            SNibble::P1 => 1,
            SNibble::P2 => 2,
            SNibble::P3 => 3,
            SNibble::P4 => 4,
            SNibble::P5 => 5,
            SNibble::P6 => 6,
            SNibble::P7 => 7,
        }
    }

    fn min_value() -> (r: Self) {
        SNibble::N8
    }

    fn max_value() -> (r: Self) {
        SNibble::P7
    }
}

impl PartialOrd for SNibble {
    fn partial_cmp(&self, other: &Self) -> (r: Option<Ordering>) {
        let a = self.to_repr();
        let b = other.to_repr();
        if a < b {
            Some(Ordering::Less)
        } else if a == b {
            Some(Ordering::Equal)
        } else {
            Some(Ordering::Greater)
        }
    }
}

impl vstd::std_specs::cmp::PartialOrdSpecImpl for SNibble {
    open spec fn obeys_partial_cmp_spec() -> bool {
        true
    }

    open spec fn partial_cmp_spec(&self, other: &Self) -> Option<Ordering> {
        if self.value() < other.value() {
            Some(Ordering::Less)
        } else if self.value() == other.value() {
            Some(Ordering::Equal)
        } else {
            Some(Ordering::Greater)
        }
    }
}

/// Ordering law: comparison of signed nibbles follows the numeric value, so
/// `N8 < N7 < ... < U0 < ... < P7`, even where the stored bit pattern of the
/// representation wraps.
pub fn snibble_lt_by_value(a: SNibble, b: SNibble) -> (r: bool)
    ensures
        r == (a.value() < b.value()),
{
    a < b
}

impl From<SNibble> for i8 {
    fn from(v: SNibble) -> (r: i8) {
        v.to_repr()
    }
}

impl vstd::std_specs::convert::FromSpecImpl<SNibble> for i8 {
    open spec fn obeys_from_spec() -> bool {
        true
    }

    open spec fn from_spec(v: SNibble) -> i8 {
        v.value() as i8
    }
}

/// A non-zero unsigned nibble: the range `[1, 15]` backed by a byte.
#[derive(Debug, Clone, Copy, PartialEq, Eq, PartialOrd, Ord, Hash)]
pub enum NZUNibble {
    U1,
    U2,
    U3,
    U4,
    U5,
    U6,
    U7,
    U8,
    U9,
    U10,
    U11,
    U12,
    U13,
    U14,
    U15,
}

impl BoundedInteger for NZUNibble {
    type Repr = u8;

    open spec fn value(self) -> int {
        match self {
            NZUNibble::U1 => 1,
            NZUNibble::U2 => 2,
            NZUNibble::U3 => 3,
            NZUNibble::U4 => 4,
            NZUNibble::U5 => 5,
            NZUNibble::U6 => 6,
            NZUNibble::U7 => 7,
            NZUNibble::U8 => 8,
            NZUNibble::U9 => 9,
            NZUNibble::U10 => 10,
            NZUNibble::U11 => 11,
            NZUNibble::U12 => 12,
            NZUNibble::U13 => 13,
            NZUNibble::U14 => 14,
            NZUNibble::U15 => 15,
        }
    }

    open spec fn min_int() -> int {
        1
    }

    open spec fn max_int() -> int {
        15
    }

    proof fn lemma_bounds() {
        assert forall|v: int|
            crate::within(Self::min_int(), v, Self::max_int()) implies #[trigger] <u8 as Repr>::in_width(
            v,
        ) by {}
    }

    proof fn lemma_value_in_range(self) {
    }

    proof fn lemma_value_injective(self, other: Self) {
    }

    fn from_repr(repr: u8) -> (r: Option<Self>) {
        match repr {
            1u8 => Some(NZUNibble::U1),
            2u8 => Some(NZUNibble::U2),
            3u8 => Some(NZUNibble::U3),
            4u8 => Some(NZUNibble::U4),
            5u8 => Some(NZUNibble::U5),
            6u8 => Some(NZUNibble::U6),
            7u8 => Some(NZUNibble::U7),
            8u8 => Some(NZUNibble::U8),
            9u8 => Some(NZUNibble::U9),
            10u8 => Some(NZUNibble::U10),
            11u8 => Some(NZUNibble::U11),
            12u8 => Some(NZUNibble::U12),
            13u8 => Some(NZUNibble::U13),
            14u8 => Some(NZUNibble::U14),
            15u8 => Some(NZUNibble::U15),
            _ => None,
        }
    }

    fn to_repr(self) -> (r: u8) {
        match self {
            NZUNibble::U1 => 1,
            NZUNibble::U2 => 2,
            NZUNibble::U3 => 3,
            NZUNibble::U4 => 4,
            NZUNibble::U5 => 5,
            NZUNibble::U6 => 6,
            NZUNibble::U7 => 7,
            NZUNibble::U8 => 8,
            NZUNibble::U9 => 9,
            NZUNibble::U10 => 10,
            NZUNibble::U11 => 11,
            NZUNibble::U12 => 12,
            NZUNibble::U13 => 13,
            NZUNibble::U14 => 14,
            NZUNibble::U15 => 15,
        }
    }

    fn min_value() -> (r: Self) {
        NZUNibble::U1
    }

    fn max_value() -> (r: Self) {
        NZUNibble::U15
    }
}

} // verus!
