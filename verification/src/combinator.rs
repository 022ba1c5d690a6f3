//! The map combinator.

use vstd::prelude::*;
use crate::option::Option;

verus! {

/// `res` is a value that mapping `f` over `opt` may produce: absent where
/// `opt` is absent; where `opt` holds `s`, a present value whose payload is
/// something that `f` returns when it is called on `s`.
pub open spec fn maps_to<S, T, F: Fn(S) -> T>(opt: Option<S>, f: F, res: Option<T>) -> bool {
    match opt {
        Option::Absent => res is Absent,
        Option::Present(s) => res matches Option::Present(t) && call_ensures(f, (s,), t),
    }
}

/// The executable function `f` computes the mathematical function `m`:
/// whatever `f` returns for an argument is the value of `m` there.
pub open spec fn computes<S, T, F: Fn(S) -> T>(f: F, m: spec_fn(S) -> T) -> bool {
    forall|s: S, t: T| call_ensures(f, (s,), t) ==> t == m(s)
}

/// Maps `f` over `opt`.
///
/// An absent value stays absent. Nothing is asked of `f` in that case, so
/// `f` is not called: it may even be a function that accepts no argument at
/// all. A present value `s` becomes the present value of what `f` returns
/// for `s`; `f` must accept `s`, and no other argument is handed to it.
pub fn map<S, T, F: Fn(S) -> T>(opt: Option<S>, f: F) -> (res: Option<T>)
    requires
        opt matches Option::Present(s) ==> call_requires(f, (s,)),
    ensures
        maps_to(opt, f, res),
        forall|m: spec_fn(S) -> T| #[trigger] computes(f, m) ==> res == opt.mapped(m),
{
    match opt {
        Option::Absent => Option::Absent,
        Option::Present(s) => Option::Present(f(s)),
    }
}

} // verus!
