//! A guarded counter: an integer that is kept non-negative.
//!
//! The counter implements the fallible side of the protocol, since not
//! every integer is an acceptable count, together with both access
//! capabilities, extraction, and the unchecked escape hatch.

use vstd::prelude::*;

use crate::AsGuts;
use crate::AsGutsMut;
use crate::FromGutsUnchecked;
use crate::Guts;
use crate::IntoGuts;
use crate::TryFromGuts;

verus! {

/// A counter whose invariant is that its value is never negative.
#[derive(Clone, Copy, Debug, PartialEq, Eq, Structural)]
pub struct Counter {
    value: i64,
}

/// The error a negative value draws from the counter's fallible
/// construction.
#[derive(Clone, Copy, Debug, PartialEq, Eq, Structural)]
pub struct InvariantViolation;

impl Guts for Counter {
    type Guts = i64;

    /// The counter's declared invariant: the count is non-negative.
    open spec fn guts_inv(guts: i64) -> bool {
        guts >= 0
    }

    closed spec fn guts_of(&self) -> i64 {
        self.value
    }

    proof fn lemma_guts_determine(v: Self, w: Self) {
    }
}

impl AsGuts for Counter {
    fn as_guts(&self) -> (guts: &i64) {
        &self.value
    }
}

impl AsGutsMut for Counter {
    fn as_guts_mut(&mut self) -> (guts: &mut i64) {
        &mut self.value
    }
}

impl IntoGuts for Counter {
    fn into_guts(self) -> (guts: i64) {
        self.value
    }
}

impl TryFromGuts for Counter {
    type Error = InvariantViolation;

    fn try_from_guts(guts: i64) -> (r: Result<Self, InvariantViolation>) {
        if guts >= 0 {
            Ok(Counter { value: guts })
        } else {
            Err(InvariantViolation)
        }
    }
}

impl FromGutsUnchecked for Counter {
    fn from_guts_unchecked(guts: i64) -> (v: Self) {
        Counter { value: guts }
    }
}

} // verus!
