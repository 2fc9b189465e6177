//! Traits for constructing/destructuring from/into a type's internal guts.
//!
//! A guarded type hides an internal representation (its guts) behind
//! invariants. These traits give such a type a controlled surface:
//! shared and exclusive views of the guts, extraction by move, and
//! construction that is infallible, fallible, or deliberately unchecked.

use vstd::prelude::*;

pub mod counter;
pub mod gauge;
pub mod laws;

verus! {

/// The base trait of `FromGuts` and `IntoGuts`, its more useful companions.
///
/// Besides naming the guts type, it fixes the mathematical reading of a
/// guarded value: which guts it currently holds (`guts_of`), and which guts
/// values its invariants accept (`guts_inv`).
pub trait Guts: Sized {
    /// The type's guts.
    type Guts;

    /// The invariant the guarded type declares over its guts.
    ///
    /// By default every guts value is acceptable; a type with a real
    /// invariant overrides this.
    open spec fn guts_inv(guts: Self::Guts) -> bool {
        true
    }

    /// The guts a guarded value currently holds.
    spec fn guts_of(&self) -> Self::Guts;

    /// The guts are the whole internal representation: two guarded values
    /// holding equal guts are equal.
    proof fn lemma_guts_determine(v: Self, w: Self)
        requires
            v.guts_of() == w.guts_of(),
        ensures
            v == w,
    ;
}

/// Read-only access to a value's guts.
pub trait AsGuts: Guts {
    /// Borrows the guts of a value.
    ///
    /// The borrow is shared: the value cannot change under it, and the
    /// reference returned holds exactly the guts of the value. Repeated
    /// calls with no mutation in between therefore return equal guts.
    fn as_guts(&self) -> (guts: &Self::Guts)
        ensures
            *guts == self.guts_of(),
    ;
}

/// Exclusive access to a value's guts.
///
/// For the duration of the borrow the caller may mutate the guts freely;
/// invariants are not re-checked when it ends. A type whose invariant
/// could not survive that must withhold this capability.
pub trait AsGutsMut: AsGuts {
    /// Mutably borrows the guts of a value.
    ///
    /// The reference starts out holding the guts the value held, and
    /// whatever the caller leaves in it when the borrow ends is exactly
    /// what the value holds afterwards.
    fn as_guts_mut(&mut self) -> (guts: &mut Self::Guts)
        ensures
            *guts == old(self).guts_of(),
            final(self).guts_of() == *final(guts),
    ;
}

/// Stores `guts` into `v` through its exclusive access.
///
/// Afterwards `v` holds exactly `guts`: a mutation made during the
/// exclusive window is reflected by every later look at the guts.
pub fn set_guts<T: AsGutsMut>(v: &mut T, guts: T::Guts)
    ensures
        final(v).guts_of() == guts,
{
    let slot = v.as_guts_mut();
    *slot = guts;
}

/// Safely destructuring values into their guts.
pub trait IntoGuts: Guts {
    /// Destructures a value into its guts.
    ///
    /// The guarded value ends here; the caller receives exactly the guts
    /// it held.
    fn into_guts(self) -> (guts: Self::Guts)
        ensures
            guts == self.guts_of(),
    ;
}

/// Safely constructing values from their guts.
///
/// A type may only offer this capability when every guts value satisfies
/// its invariant: an implementation must show `Self::guts_inv` of any
/// input it is given.
pub trait FromGuts: Guts {
    /// Constructs a value from its guts.
    fn from_guts(guts: Self::Guts) -> (v: Self)
        ensures
            v.guts_of() == guts,
            Self::guts_inv(guts),
    ;
}

/// Safely constructing values from their guts with possible failure.
pub trait TryFromGuts: Guts {
    /// The invariant-violation error reported for rejected guts.
    type Error;

    /// Constructs a value from its guts, or fails.
    ///
    /// Succeeds exactly on the guts the invariant accepts; on success the
    /// new value holds exactly the guts it was given. A rejected input
    /// produces only the error, never a guarded value.
    fn try_from_guts(guts: Self::Guts) -> (r: Result<Self, Self::Error>)
        ensures
            r is Ok <==> Self::guts_inv(guts),
            r is Ok ==> r->Ok_0.guts_of() == guts,
    ;
}

/// Constructing values from their guts without checking invariants.
///
/// This is the protocol's one escape hatch. The caller carries the whole
/// obligation: the guts handed in must already satisfy the invariant.
/// The construction itself performs no check.
pub trait FromGutsUnchecked: Guts {
    /// Constructs a value from its guts, without checking invariants.
    ///
    /// The precondition is the caller's promise, not a runtime test; the
    /// body is free to assume it.
    fn from_guts_unchecked(guts: Self::Guts) -> (v: Self)
        requires
            Self::guts_inv(guts),
        ensures
            v.guts_of() == guts,
    ;
}

/// An error that is never produced.
///
/// It stands in for the absent error path of a construction that cannot
/// fail. Nothing in this crate builds a value of it: the derived fallible
/// construction below succeeds on every input, as its contract states.
#[derive(Debug)]
pub struct Never;

impl<T: FromGuts> TryFromGuts for T {
    type Error = Never;

    /// Infallible construction also serves as fallible construction whose
    /// error path is unreachable.
    fn try_from_guts(guts: Self::Guts) -> (r: Result<Self, Self::Error>) {
        Ok(Self::from_guts(guts))
    }
}

impl<T: FromGuts> FromGutsUnchecked for T {
    /// Where construction never fails, the unchecked path may simply be
    /// the checked one: delegating is always sound.
    fn from_guts_unchecked(guts: Self::Guts) -> (v: Self) {
        Self::from_guts(guts)
    }
}

} // verus!
