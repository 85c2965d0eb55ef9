//! Closed intervals of fixed-point scalars.

use vstd::prelude::*;

use crate::fixed::{fx_sub, Fx, MAX_RAW, MIN_RAW};

verus! {

/// A `[min, max]` interval of scalars, used both as a validity window for
/// ray parameters and to clamp color channels. The empty interval is
/// `min == +MAX, max == -MAX` by convention: it contains no value.
#[derive(Clone, Copy, Debug, PartialEq, Eq, Structural)]
pub struct Interval {
    pub min: Fx,
    pub max: Fx,
}

impl Interval {
    /// Whether `x` lies in the closed interval.
    pub open spec fn spec_contains(self, x: Fx) -> bool {
        self.min.raw <= x.raw && x.raw <= self.max.raw
    }

    /// Whether `x` lies strictly inside the interval.
    pub open spec fn spec_surrounds(self, x: Fx) -> bool {
        self.min.raw < x.raw && x.raw < self.max.raw
    }

    /// `x` forced into the interval.
    pub open spec fn spec_clamp(self, x: Fx) -> Fx {
        if x.raw < self.min.raw {
            self.min
        } else if x.raw > self.max.raw {
            self.max
        } else {
            x
        }
    }

    /// An interval from its bounds.
    pub fn new(min: Fx, max: Fx) -> (r: Interval)
        ensures
            r == (Interval { min, max }),
    {
        Interval { min, max }
    }

    /// The interval containing no value.
    pub fn empty() -> (r: Interval)
        ensures
            r.min.raw == MAX_RAW,
            r.max.raw == MIN_RAW,
    {
        Interval { min: Fx { raw: MAX_RAW }, max: Fx { raw: MIN_RAW } }
    }

    /// The interval containing every representable value.
    pub fn full() -> (r: Interval)
        ensures
            r.min.raw == MIN_RAW,
            r.max.raw == MAX_RAW,
    {
        Interval { min: Fx { raw: MIN_RAW }, max: Fx { raw: MAX_RAW } }
    }

    /// Width of the interval (saturating; negative for an empty interval).
    pub fn size(&self) -> (r: Fx)
        ensures
            r.raw == fx_sub(self.max.raw as int, self.min.raw as int),
    {
        self.max.sub(self.min)
    }

    /// Whether `x` lies in the closed interval.
    pub fn contains(&self, x: Fx) -> (r: bool)
        ensures
            r == self.spec_contains(x),
    {
        self.min.raw <= x.raw && x.raw <= self.max.raw
    }

    /// Whether `x` lies strictly inside the interval.
    pub fn surrounds(&self, x: Fx) -> (r: bool)
        ensures
            r == self.spec_surrounds(x),
    {
        self.min.raw < x.raw && x.raw < self.max.raw
    }

    /// `x` forced into the interval.
    pub fn clamp(&self, x: Fx) -> (r: Fx)
        ensures
            r == self.spec_clamp(x),
    {
        if x.raw < self.min.raw {
            self.min
        } else if x.raw > self.max.raw {
            self.max
        } else {
            x
        }
    }
}

} // verus!
