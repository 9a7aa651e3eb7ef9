//! Signed integer literals of a range declaration.
//!
//! A bounded type is declared by its two bound literals. A literal is kept in
//! sign-and-magnitude form so the bounds of signed and unsigned ranges read
//! alike; stepping through the range visits every literal from the minimum to
//! the maximum in numeric order.

use core::cmp::Ordering;
use vstd::prelude::*;
use vstd::std_specs::cmp::PartialOrdSpec;

verus! {

/// Signed integer literal in sign-and-magnitude form.
///
/// A negative literal always has a magnitude of at least one: there is no
/// negative zero.
#[derive(Debug, Clone, Copy, PartialEq, Eq, Hash)]
pub struct IntLit {
    /// Negative.
    pub neg: bool,
    /// Magnitude.
    pub magnitude: u64,
}

impl IntLit {
    /// Numeric value of the literal.
    pub open spec fn value(self) -> int {
        if self.neg {
            -(self.magnitude as int)
        } else {
            self.magnitude as int
        }
    }

    /// A literal is well formed when it is not a negative zero.
    pub open spec fn wf(self) -> bool {
        self.neg ==> self.magnitude >= 1
    }

    /// Returns the successive integer literal.
    pub fn succ(self) -> (r: Self)
        requires
            self.wf(),
            !self.neg ==> self.magnitude < u64::MAX,
        ensures
            r.wf(),
            r.value() == self.value() + 1,
    {
        if self.neg && self.magnitude == 1 {
            IntLit { neg: false, magnitude: 0 }
        } else if self.neg {
            IntLit { neg: true, magnitude: self.magnitude - 1 }
        } else {
            IntLit { neg: false, magnitude: self.magnitude + 1 }
        }
    }
}

impl PartialOrd for IntLit {
    fn partial_cmp(&self, other: &Self) -> (r: Option<Ordering>) {
        match (self.neg, other.neg) {
            (true, false) => Some(Ordering::Less),
            (false, true) => Some(Ordering::Greater),
            (true, true) => {
                if other.magnitude < self.magnitude {
                    Some(Ordering::Less)
                } else if other.magnitude == self.magnitude {
                    Some(Ordering::Equal)
                } else {
                    Some(Ordering::Greater)
                }
            },
            (false, false) => {
                if self.magnitude < other.magnitude {
                    Some(Ordering::Less)
                } else if self.magnitude == other.magnitude {
                    Some(Ordering::Equal)
                } else {
                    Some(Ordering::Greater)
                }
            },
        }
    }
}

impl vstd::std_specs::cmp::PartialOrdSpecImpl for IntLit {
    open spec fn obeys_partial_cmp_spec() -> bool {
        true
    }

    open spec fn partial_cmp_spec(&self, other: &Self) -> Option<Ordering> {
        match (self.neg, other.neg) {
            (true, false) => Some(Ordering::Less),
            (false, true) => Some(Ordering::Greater),
            (true, true) => if other.magnitude < self.magnitude {
                Some(Ordering::Less)
            } else if other.magnitude == self.magnitude {
                Some(Ordering::Equal)
            } else {
                Some(Ordering::Greater)
            },
            (false, false) => if self.magnitude < other.magnitude {
                Some(Ordering::Less)
            } else if self.magnitude == other.magnitude {
                Some(Ordering::Equal)
            } else {
                Some(Ordering::Greater)
            },
        }
    }
}

/// Ordering law: on well-formed literals the sign-and-magnitude comparison
/// above is exactly the comparison of the numeric values.
pub proof fn lemma_int_lit_ordered_by_value(a: IntLit, b: IntLit)
    requires
        a.wf(),
        b.wf(),
    ensures
        (a.partial_cmp_spec(&b) == Some(Ordering::Less)) == (a.value() < b.value()),
        (a.partial_cmp_spec(&b) == Some(Ordering::Equal)) == (a.value() == b.value()),
        (a.partial_cmp_spec(&b) == Some(Ordering::Greater)) == (a.value() > b.value()),
{
}

} // verus!
