//! The laws the protocol guarantees, stated over the contracts of its
//! capabilities.
//!
//! Each hypothesis below is exactly what the named capability's contract
//! ensures of its result, so every law holds of any implementation of
//! these traits, not only of the types in this crate.

use vstd::prelude::*;

use crate::AsGuts;
use crate::AsGutsMut;
use crate::FromGuts;
use crate::Guts;
use crate::IntoGuts;
use crate::TryFromGuts;

verus! {

/// Round-trip law: rebuilding a guarded value from its extracted guts
/// yields a value equal to the original.
///
/// `extracted` is what `into_guts` returned for `v`, and `rebuilt` is
/// what `from_guts` made of it.
pub proof fn lemma_round_trip<T: IntoGuts + FromGuts>(v: T, extracted: T::Guts, rebuilt: T)
    requires
        extracted == v.guts_of(),
        rebuilt.guts_of() == extracted,
    ensures
        rebuilt == v,
{
    T::lemma_guts_determine(rebuilt, v);
}

/// Guts accepted by fallible construction survive extraction: the value
/// built from them gives back exactly the guts that went in.
///
/// `v` is the value `try_from_guts` built from the accepted `guts`, and
/// `extracted` is what `into_guts` returned for it.
pub proof fn lemma_accepted_guts_survive<T: TryFromGuts + IntoGuts>(
    guts: T::Guts,
    v: T,
    extracted: T::Guts,
)
    requires
        T::guts_inv(guts),
        v.guts_of() == guts,
        extracted == v.guts_of(),
    ensures
        extracted == guts,
{
}

/// Guts rejected by fallible construction yield an error and no guarded
/// value; being verified, the construction cannot panic either.
///
/// `r` is what `try_from_guts` returned for the invalid `guts`.
pub proof fn lemma_rejected_guts_yield_error<T: TryFromGuts>(guts: T::Guts, r: Result<T, T::Error>)
    requires
        !T::guts_inv(guts),
        r is Ok <==> T::guts_inv(guts),
    ensures
        r is Err,
{
}

/// For a type with infallible construction, the derived unchecked
/// construction agrees with it: on the same guts, both produce equal
/// values.
///
/// `unchecked` is what `from_guts_unchecked` made of `guts`, and
/// `checked` what `from_guts` made of them.
pub proof fn lemma_unchecked_agrees_with_infallible<T: FromGuts>(
    guts: T::Guts,
    unchecked: T,
    checked: T,
)
    requires
        unchecked.guts_of() == guts,
        checked.guts_of() == guts,
    ensures
        unchecked == checked,
{
    T::lemma_guts_determine(unchecked, checked);
}

/// Shared access never mutates: two reads of the guts with no mutation
/// in between return equal guts.
///
/// `first` and `second` are what two calls of `as_guts` returned for the
/// same value `v`.
pub proof fn lemma_shared_access_stable<T: AsGuts>(v: T, first: T::Guts, second: T::Guts)
    requires
        first == v.guts_of(),
        second == v.guts_of(),
    ensures
        first == second,
{
}

/// A mutation made through exclusive access is visible to the next
/// shared access.
///
/// `written` is the guts the exclusive window left behind in `v`, as
/// `as_guts_mut` ensures, and `seen` is what `as_guts` then returned.
pub proof fn lemma_mutation_visible<T: AsGutsMut>(v: T, written: T::Guts, seen: T::Guts)
    requires
        v.guts_of() == written,
        seen == v.guts_of(),
    ensures
        seen == written,
{
}

} // verus!
