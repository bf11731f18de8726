//! Real numbers carried by their IEEE 754 bit patterns.
//!
//! The library stores, compares and hands on such values; it never computes
//! with them.
use vstd::prelude::*;

verus! {

/// A single-precision number.
#[derive(Clone, Copy, Debug, PartialEq, Eq, Structural)]
pub struct F32 {
    pub bits: u32,
}

/// A double-precision number.
#[derive(Clone, Copy, Debug, PartialEq, Eq, Structural)]
pub struct F64 {
    pub bits: u64,
}

impl F32 {
    /// The bit pattern without its sign.
    pub open spec fn magnitude(self) -> int {
        if self.bits >= 0x8000_0000 {
            self.bits - 0x8000_0000
        } else {
            self.bits as int
        }
    }

    /// Neither infinite nor NaN.
    pub open spec fn finite(self) -> bool {
        self.magnitude() < 0x7f80_0000
    }

    /// Not a number.
    pub open spec fn nan(self) -> bool {
        self.magnitude() > 0x7f80_0000
    }

    /// A number that orders as the real value does: bit patterns of one sign
    /// are ordered by magnitude, and both zeros have rank zero.
    pub open spec fn rank(self) -> int {
        if self.bits >= 0x8000_0000 {
            -self.magnitude()
        } else {
            self.magnitude()
        }
    }

    /// `self <= other` as real numbers; false when either is NaN.
    pub open spec fn at_most(self, other: F32) -> bool {
        !self.nan() && !other.nan() && self.rank() <= other.rank()
    }

    /// `self < other` as real numbers; false when either is NaN.
    pub open spec fn below(self, other: F32) -> bool {
        !self.nan() && !other.nan() && self.rank() < other.rank()
    }

    /// `low <= self <= high` as real numbers.
    pub open spec fn within(self, low: F32, high: F32) -> bool {
        low.at_most(self) && self.at_most(high)
    }

    /// The number without its sign.
    pub open spec fn absolute(self) -> F32 {
        F32 { bits: self.magnitude() as u32 }
    }

    /// The number with the other sign.
    pub open spec fn negated(self) -> F32 {
        if self.bits >= 0x8000_0000 {
            F32 { bits: (self.bits - 0x8000_0000) as u32 }
        } else {
            F32 { bits: (self.bits + 0x8000_0000) as u32 }
        }
    }

    /// The number brought into `low..=high`; NaN stays what it is.
    pub open spec fn clamped(self, low: F32, high: F32) -> F32 {
        if self.below(low) {
            low
        } else if high.below(self) {
            high
        } else {
            self
        }
    }

    fn split(self) -> (r: (bool, u32))
        ensures
            r.0 == (self.bits >= 0x8000_0000),
            r.1 == self.magnitude(),
    {
        if self.bits >= 0x8000_0000 {
            (true, self.bits - 0x8000_0000)
        } else {
            (false, self.bits)
        }
    }

    /// Whether the value is finite.
    pub fn is_finite(self) -> (r: bool)
        ensures
            r == self.finite(),
    {
        self.split().1 < 0x7f80_0000
    }

    /// `self <= other`.
    pub fn le(self, other: F32) -> (r: bool)
        ensures
            r == self.at_most(other),
    {
        let (sn, sm) = self.split();
        let (on, om) = other.split();
        let sr: i64 = if sn {
            -(sm as i64)
        } else {
            sm as i64
        };
        let or: i64 = if on {
            -(om as i64)
        } else {
            om as i64
        };
        sm <= 0x7f80_0000 && om <= 0x7f80_0000 && sr <= or
    }

    /// `self < other`.
    pub fn lt(self, other: F32) -> (r: bool)
        ensures
            r == self.below(other),
    {
        self.le(other) && !other.le(self)
    }

    /// The number without its sign.
    pub fn abs(self) -> (r: F32)
        ensures
            r == self.absolute(),
    {
        F32 { bits: self.split().1 }
    }

    /// The number with the other sign.
    pub fn opposite(self) -> (r: F32)
        ensures
            r == self.negated(),
    {
        if self.bits >= 0x8000_0000 {
            F32 { bits: self.bits - 0x8000_0000 }
        } else {
            F32 { bits: self.bits + 0x8000_0000 }
        }
    }

    /// The number brought into `low..=high`; NaN stays what it is.
    pub fn clamp(self, low: F32, high: F32) -> (r: F32)
        ensures
            r == self.clamped(low, high),
    {
        if self.lt(low) {
            low
        } else if high.lt(self) {
            high
        } else {
            self
        }
    }

    /// `low <= self <= high`.
    pub fn in_range(self, low: F32, high: F32) -> (r: bool)
        ensures
            r == self.within(low, high),
    {
        low.le(self) && self.le(high)
    }
}

impl F64 {
    /// The bit pattern without its sign.
    pub open spec fn magnitude(self) -> int {
        if self.bits >= 0x8000_0000_0000_0000 {
            self.bits - 0x8000_0000_0000_0000
        } else {
            self.bits as int
        }
    }

    /// Neither infinite nor NaN.
    pub open spec fn finite(self) -> bool {
        self.magnitude() < 0x7ff0_0000_0000_0000
    }

    /// A finite number greater than zero.
    pub open spec fn finite_positive(self) -> bool {
        self.finite() && self.bits < 0x8000_0000_0000_0000 && self.magnitude() > 0
    }

    /// Whether the value is finite and greater than zero.
    pub fn is_finite_positive(self) -> (r: bool)
        ensures
            r == self.finite_positive(),
    {
        0 < self.bits && self.bits < 0x7ff0_0000_0000_0000
    }
}

/// Numbers compare as real numbers do: of two that differ just one is below
/// the other, the two zeros do not differ, changing signs turns the order around,
/// and what is no number compares with nothing.
pub proof fn numbers_are_ordered(x: F32, y: F32, z: F32)
    ensures
        x.nan() ==> !x.at_most(y) && !y.at_most(x) && !x.below(y) && !y.below(x),
        !x.nan() && !y.nan() ==> (x.below(y) <==> !y.at_most(x)),
        !x.nan() && !y.nan() && x != y && x.absolute().bits != 0 ==> x.below(y) || y.below(x),
        x.at_most(y) && y.at_most(z) ==> x.at_most(z),
        x.below(y) ==> x.at_most(y) && y.negated().below(x.negated()),
        x.bits < y.bits <= 0x7f80_0000 ==> x.below(y),
        0x8000_0000 < x.bits <= 0xff80_0000 ==> x.below(F32 { bits: 0 }),
        x.negated().negated() == x,
        x.absolute() == x || x.absolute() == x.negated(),
        x.absolute().absolute() == x.negated().absolute(),
        !x.nan() ==> (F32 { bits: 0 }).at_most(x.absolute()),
        (F32 { bits: 0x8000_0000 }).at_most(F32 { bits: 0 }),
        (F32 { bits: 0 }).at_most(F32 { bits: 0x8000_0000 }),
        !x.finite() && !x.nan() ==> x.absolute().bits == 0x7f80_0000,
        x.nan() ==> x.absolute().bits > 0x7f80_0000,
{
}

/// A number brought into a range is in it, moves no further than to its nearer
/// end, and stays where it was inside.
pub proof fn clamping_stays_in_range(x: F32, low: F32, high: F32)
    requires
        low.at_most(high),
    ensures
        !x.nan() ==> x.clamped(low, high).within(low, high),
        x.within(low, high) ==> x.clamped(low, high) == x,
        x.at_most(low) && !low.at_most(x) ==> x.clamped(low, high) == low,
        high.at_most(x) && !x.at_most(high) ==> x.clamped(low, high) == high,
        x.nan() ==> x.clamped(low, high) == x,
{
}

} // verus!
