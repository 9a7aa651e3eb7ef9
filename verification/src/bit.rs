//! Bits.

use crate::repr::Repr;
use crate::BoundedInteger;
use vstd::prelude::*;

verus! {

/// A bit: the unsigned range `[0, 1]` backed by a byte.
#[derive(Debug, Clone, Copy, PartialEq, Eq, PartialOrd, Ord, Hash)]
pub enum Bit {
    U0,
    U1,
}

impl BoundedInteger for Bit {
    type Repr = u8;

    open spec fn value(self) -> int {
        match self {
            Bit::U0 => 0,
            Bit::U1 => 1,
        }
    }

    open spec fn min_int() -> int {
        0
    }

    open spec fn max_int() -> int {
        1
    }

    proof fn lemma_bounds() {
        assert forall|v: int|
            crate::within(Self::min_int(), v, Self::max_int()) implies #[trigger] <u8 as Repr>::in_width(
            v,
        ) by {}
    }

    proof fn lemma_value_in_range(self) {
    }

    proof fn lemma_value_injective(self, other: Self) {
    }

    fn from_repr(repr: u8) -> (r: Option<Self>) {
        match repr {
            0u8 => Some(Bit::U0),
            1u8 => Some(Bit::U1),
            _ => None,
        }
    }

    fn to_repr(self) -> (r: u8) {
        match self {
            Bit::U0 => 0,
            Bit::U1 => 1,
        }
    }

    fn min_value() -> (r: Self) {
        Bit::U0
    }

    fn max_value() -> (r: Self) {
        Bit::U1
    }
}

} // verus!
