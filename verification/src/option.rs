//! The optional value.

use vstd::prelude::*;

verus! {

/// Either no value, or exactly one value of type `T`.
///
/// There is no third state: a value is `Absent` or it is `Present`, and a
/// `Present` value owns its payload.
#[derive(Copy, Debug, PartialEq, Eq, Structural)]
pub enum Option<T> {
    /// No value.
    Absent,
    /// One value.
    Present(T),
}

impl<S> Option<S> {
    /// The value obtained by carrying the mathematical function `m` across
    /// `self`: an absent value stays absent, a payload `s` becomes `m(s)`.
    pub open spec fn mapped<T>(self, m: spec_fn(S) -> T) -> Option<T> {
        match self {
            Option::Absent => Option::Absent,
            Option::Present(s) => Option::Present(m(s)),
        }
    }
}

impl<T: Clone> Clone for Option<T> {
    /// Copies the value: an absent value gives an absent one, a present
    /// value gives a present one that holds a clone of the payload.
    fn clone(&self) -> (res: Self)
        ensures
            match *self {
                Option::Absent => res is Absent,
                Option::Present(v) => res matches Option::Present(w) && cloned::<T>(v, w),
            },
    {
        match self {
            Option::Absent => Option::Absent,
            Option::Present(v) => Option::Present(v.clone()),
        }
    }
}

/// Every value is in exactly one of the two variants.
pub proof fn lemma_exactly_one_variant<T>(opt: Option<T>)
    ensures
        (opt is Absent) != (opt is Present),
{
}

/// An absent value, however it is inspected, is absent and never present.
pub proof fn lemma_absent_is_absent<T>()
    ensures
        Option::<T>::Absent is Absent,
        !(Option::<T>::Absent is Present),
        forall|v: T| Option::<T>::Absent != Option::Present(v),
{
}

/// A value built from `v` is present, and inspecting it gives back exactly `v`.
pub proof fn lemma_present_round_trip<T>(v: T)
    ensures
        Option::Present(v) is Present,
        !(Option::Present(v) is Absent),
        Option::Present(v)->Present_0 == v,
        forall|w: T| Option::Present(v) == Option::Present(w) ==> v == w,
{
}

} // verus!
