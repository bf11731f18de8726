//! Rectangles in pixels.
use vstd::prelude::*;

verus! {

/// A rectangle by its upper left corner and its size.
#[derive(Debug, Clone, Copy, PartialEq, Eq, Structural)]
pub struct Rect {
    pub x: i32,
    pub y: i32,
    pub w: i32,
    pub h: i32,
}

impl Rect {
    /// The rectangle with this corner and size.
    pub fn new(x: i32, y: i32, w: i32, h: i32) -> (r: Rect)
        ensures
            r == (Rect { x, y, w, h }),
    {
        Rect { x, y, w, h }
    }
}

/// `v` brought into the range of `i32`.
pub open spec fn saturated(v: int) -> int {
    if v > i32::MAX {
        i32::MAX as int
    } else if v < i32::MIN {
        i32::MIN as int
    } else {
        v
    }
}

/// The greater of two numbers.
pub open spec fn larger(a: int, b: int) -> int {
    if a >= b {
        a
    } else {
        b
    }
}

/// The smaller of two numbers.
pub open spec fn smaller(a: int, b: int) -> int {
    if a <= b {
        a
    } else {
        b
    }
}

/// `v` brought into `low..=high`.
pub open spec fn clamped(v: int, low: int, high: int) -> int {
    if v < low {
        low
    } else if v > high {
        high
    } else {
        v
    }
}

/// Bringing a number into a range moves it no further than needed, and the
/// greater and the smaller of two numbers are those.
pub proof fn bounds_are_nearest(v: int, a: int, b: int, low: int, high: int)
    requires
        low <= high,
    ensures
        i32::MIN <= saturated(v) <= i32::MAX,
        i32::MIN <= v <= i32::MAX ==> saturated(v) == v,
        v > i32::MAX ==> saturated(v) == i32::MAX,
        v < i32::MIN ==> saturated(v) == i32::MIN,
        low <= clamped(v, low, high) <= high,
        low <= v <= high ==> clamped(v, low, high) == v,
        v <= low ==> clamped(v, low, high) == low,
        v >= high ==> clamped(v, low, high) == high,
        larger(a, b) >= a && larger(a, b) >= b && (larger(a, b) == a || larger(a, b) == b),
        smaller(a, b) <= a && smaller(a, b) <= b && (smaller(a, b) == a || smaller(a, b) == b),
{
}

} // verus!
