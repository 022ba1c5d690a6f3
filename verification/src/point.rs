//! A coordinate pair, used as a payload.

use vstd::prelude::*;

verus! {

/// A pair of coordinates. Plain data: any two `u32` values make a point.
#[derive(Clone, Copy, Debug, PartialEq, Eq, Structural)]
pub struct Point {
    pub x: u32,
    pub y: u32,
}

} // verus!
