//! A guarded gauge: a reading for which every integer level is
//! acceptable.
//!
//! With no invariant to defend, the gauge offers infallible
//! construction, and so receives fallible and unchecked construction
//! for free through the blanket implementations.

use vstd::prelude::*;

use crate::AsGuts;
use crate::AsGutsMut;
use crate::FromGuts;
use crate::Guts;
use crate::IntoGuts;

verus! {

/// A gauge reading; any level at all is a valid one.
#[derive(Clone, Copy, Debug, PartialEq, Eq, Structural)]
pub struct Gauge {
    level: i64,
}

impl Guts for Gauge {
    type Guts = i64;

    closed spec fn guts_of(&self) -> i64 {
        self.level
    }

    proof fn lemma_guts_determine(v: Self, w: Self) {
    }
}

impl AsGuts for Gauge {
    fn as_guts(&self) -> (guts: &i64) {
        &self.level
    }
}

impl AsGutsMut for Gauge {
    fn as_guts_mut(&mut self) -> (guts: &mut i64) {
        &mut self.level
    }
}

impl IntoGuts for Gauge {
    fn into_guts(self) -> (guts: i64) {
        self.level
    }
}

impl FromGuts for Gauge {
    fn from_guts(guts: i64) -> (v: Self) {
        Gauge { level: guts }
    }
}

} // verus!
