//! What holds of mapping, for every optional value and every function.

use vstd::prelude::*;
use crate::combinator::{computes, maps_to};
use crate::option::Option;

verus! {

/// Short circuit: mapping over an absent value gives an absent value,
/// whatever the function is, callable or not.
pub proof fn lemma_map_absent<S, T, F: Fn(S) -> T>(f: F, res: Option<T>)
    requires
        maps_to(Option::<S>::Absent, f, res),
    ensures
        res is Absent,
{
}

/// Mapping over a present value gives a present value, and its payload is
/// what `f` returns for the payload `v` itself, not for any other argument.
pub proof fn lemma_map_present<S, T, F: Fn(S) -> T>(v: S, f: F, res: Option<T>)
    requires
        maps_to(Option::Present(v), f, res),
    ensures
        res is Present,
        call_ensures(f, (v,), res->Present_0),
{
}

/// Mapping a function that computes `m` gives exactly `opt.mapped(m)`; so
/// mapping is deterministic whenever the function is.
pub proof fn lemma_map_of_computed<S, T, F: Fn(S) -> T>(
    opt: Option<S>,
    f: F,
    m: spec_fn(S) -> T,
    res: Option<T>,
)
    requires
        computes(f, m),
        maps_to(opt, f, res),
    ensures
        res == opt.mapped(m),
{
}

/// Identity: carrying the identity function across a value changes nothing.
pub proof fn lemma_mapped_identity<S>(opt: Option<S>)
    ensures
        opt.mapped(|s: S| s) == opt,
{
}

/// Composition: carrying `f` and then `g` across a value is carrying
/// "`f`, then `g`" across it in one pass.
pub proof fn lemma_mapped_composition<S, T, U>(
    opt: Option<S>,
    f: spec_fn(S) -> T,
    g: spec_fn(T) -> U,
)
    ensures
        opt.mapped(f).mapped(g) == opt.mapped(|s: S| g(f(s))),
{
}

/// Identity, of the executable combinator: where `f` returns its argument,
/// whatever mapping `f` over `opt` produces equals `opt`.
pub proof fn lemma_map_identity<S, F: Fn(S) -> S>(opt: Option<S>, f: F, res: Option<S>)
    requires
        computes(f, |s: S| s),
        maps_to(opt, f, res),
    ensures
        res == opt,
{
}

/// Composition, of the executable combinator: where `f` computes `mf`, `g`
/// computes `mg` and `h` computes "`mf`, then `mg`", mapping `f` and then `g`
/// produces the same value as mapping `h` once.
pub proof fn lemma_map_composition<S, T, U, F: Fn(S) -> T, G: Fn(T) -> U, H: Fn(S) -> U>(
    opt: Option<S>,
    f: F,
    g: G,
    h: H,
    mf: spec_fn(S) -> T,
    mg: spec_fn(T) -> U,
    mid: Option<T>,
    two_pass: Option<U>,
    one_pass: Option<U>,
)
    requires
        computes(f, mf),
        computes(g, mg),
        computes(h, |s: S| mg(mf(s))),
        maps_to(opt, f, mid),
        maps_to(mid, g, two_pass),
        maps_to(opt, h, one_pass),
    ensures
        two_pass == one_pass,
        two_pass == opt.mapped(mf).mapped(mg),
{
}

} // verus!
