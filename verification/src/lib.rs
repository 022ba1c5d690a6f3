//! An optional value and the combinator that maps a function over it.
//!
//! [`option::Option`] holds either nothing or exactly one payload.
//! [`combinator::map`] carries a function across it: nothing stays nothing,
//! a payload is replaced by what the function returns for it. The module
//! [`laws`] proves what holds of mapping for every value and every function.

pub mod combinator;
pub mod laws;
pub mod option;
pub mod point;
