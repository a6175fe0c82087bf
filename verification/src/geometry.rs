//! Sizes, points and layout constraints, in whole device units.

use vstd::prelude::*;

verus! {

/// A width and height in device units.
#[derive(Clone, Copy, Debug, PartialEq, Eq, Structural)]
pub struct Size {
    pub width: u64,
    pub height: u64,
}

impl Size {
    /// The zero size.
    pub fn zero() -> (s: Size)
        ensures
            s == (Size { width: 0u64, height: 0u64 }),
    {
        Size { width: 0, height: 0 }
    }

    /// A size with the given dimensions.
    pub fn new(width: u64, height: u64) -> (s: Size)
        ensures
            s == (Size { width, height }),
    {
        Size { width, height }
    }
}

/// A position in device units.
#[derive(Clone, Copy, Debug, PartialEq, Eq, Structural)]
pub struct Point {
    pub x: u64,
    pub y: u64,
}

impl Point {
    /// The origin.
    pub fn zero() -> (p: Point)
        ensures
            p == (Point { x: 0u64, y: 0u64 }),
    {
        Point { x: 0, y: 0 }
    }

    /// A point with the given coordinates.
    pub fn new(x: u64, y: u64) -> (p: Point)
        ensures
            p == (Point { x, y }),
    {
        Point { x, y }
    }
}

/// The box a layout pass must fit a widget into: a minimum and a maximum size.
#[derive(Clone, Copy, Debug, PartialEq, Eq, Structural)]
pub struct BoxConstraints {
    pub min: Size,
    pub max: Size,
}

impl BoxConstraints {
    /// True iff `s` lies between the minimum and the maximum, in both
    /// dimensions.
    pub open spec fn contains(self, s: Size) -> bool {
        &&& self.min.width <= s.width <= self.max.width
        &&& self.min.height <= s.height <= self.max.height
    }

    /// Constraints that admit exactly `size`.
    pub fn tight(size: Size) -> (bc: BoxConstraints)
        ensures
            bc.min == size,
            bc.max == size,
            forall|s: Size| bc.contains(s) <==> s == size,
    {
        BoxConstraints { min: size, max: size }
    }
}

} // verus!
