//! Numbers between 0 and 1 without floating point.

use vstd::prelude::*;

verus! {

/// How many millionths make one.
pub const MILLIONTHS_PER_ONE: u32 = 1_000_000;

/// A number from 0 to 1 inclusive, held as a whole count of millionths.
///
/// Confidences, normalized image coordinates and the minimum text height are
/// all of this type, so that every comparison and every sum is exact.
#[derive(Debug, Clone, Copy, PartialEq, Eq, Structural)]
pub struct Fraction {
    millionths: u32,
}

impl View for Fraction {
    type V = nat;

    /// The count of millionths.
    closed spec fn view(&self) -> nat {
        self.millionths as nat
    }
}

impl Fraction {
    #[verifier::type_invariant]
    closed spec fn in_range(&self) -> bool {
        self.millionths <= MILLIONTHS_PER_ONE
    }

    /// The fraction of `millionths` millionths, if that is at most one.
    pub fn new(millionths: u32) -> (fraction: Option<Fraction>)
        ensures
            fraction is Some <==> millionths <= MILLIONTHS_PER_ONE,
            fraction matches Some(f) ==> f@ == millionths,
    {
        if millionths <= MILLIONTHS_PER_ONE {
            Some(Fraction { millionths })
        } else {
            None
        }
    }

    /// The fraction of `millionths` millionths.
    pub fn from_millionths(millionths: u32) -> (fraction: Fraction)
        requires
            millionths <= MILLIONTHS_PER_ONE,
        ensures
            fraction@ == millionths,
    {
        Fraction { millionths }
    }

    /// The count of millionths, which never exceeds a million.
    pub fn millionths(&self) -> (millionths: u32)
        ensures
            millionths == self@,
            millionths <= MILLIONTHS_PER_ONE,
    {
        proof {
            use_type_invariant(self);
        }
        self.millionths
    }
}

} // verus!
