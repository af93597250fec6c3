use vstd::prelude::*;

verus! {

/// Largest representable length; a maximum of this value means "unbounded".
pub const UNBOUNDED: u64 = 0xffff_ffff_ffff_ffff;

/// A width and a height, in layout units.
#[derive(Clone, Copy, Debug, PartialEq, Eq, Structural)]
pub struct Extent {
    pub width: u64,
    pub height: u64,
}

/// A box constraint: the allowed range of widths and of heights.
#[derive(Clone, Copy, Debug, PartialEq, Eq, Structural)]
pub struct Constraints {
    pub min: Extent,
    pub max: Extent,
}

/// One end of a caller-supplied range of lengths.
#[derive(Clone, Copy, Debug, PartialEq, Eq, Structural)]
pub enum Limit {
    Included(u64),
    Excluded(u64),
    Unbounded,
}

pub open spec fn max_len(a: u64, b: u64) -> u64 {
    if a >= b {
        a
    } else {
        b
    }
}

pub open spec fn min_len(a: u64, b: u64) -> u64 {
    if a <= b {
        a
    } else {
        b
    }
}

/// `v` moved into `[lo, hi]`.
pub open spec fn clamp(v: u64, lo: u64, hi: u64) -> u64 {
    if v < lo {
        lo
    } else if v > hi {
        hi
    } else {
        v
    }
}

/// The length named by a range end, with `absent` for an unbounded end.
pub open spec fn limit_value(l: Limit, absent: u64) -> u64 {
    match l {
        Limit::Included(v) => v,
        Limit::Excluded(v) => v,
        Limit::Unbounded => absent,
    }
}

impl Extent {
    pub fn new(width: u64, height: u64) -> (r: Extent)
        ensures
            r.width == width,
            r.height == height,
    {
        Extent { width, height }
    }
}

impl Limit {
    /// The length this range end stands for; an unbounded end gives `absent`.
    pub fn value_or(self, absent: u64) -> (r: u64)
        ensures
            r == limit_value(self, absent),
    {
        match self {
            Limit::Included(v) => v,
            Limit::Excluded(v) => v,
            Limit::Unbounded => absent,
        }
    }
}

impl Constraints {
    /// Minimum no larger than maximum on both axes.
    pub open spec fn wf(self) -> bool {
        self.min.width <= self.max.width && self.min.height <= self.max.height
    }

    pub fn new(min: Extent, max: Extent) -> (r: Constraints)
        ensures
            r.min == min,
            r.max == max,
    {
        Constraints { min, max }
    }

    /// The constraint that admits exactly `size`.
    pub fn tight(size: Extent) -> (r: Constraints)
        ensures
            r.min == size,
            r.max == size,
            r.wf(),
    {
        Constraints { min: size, max: size }
    }

    /// The same maximum with the minimum dropped to zero.
    pub fn loosen(&self) -> (r: Constraints)
        ensures
            r.min == (Extent { width: 0, height: 0 }),
            r.max == self.max,
            r.wf(),
    {
        Constraints { min: Extent { width: 0, height: 0 }, max: self.max }
    }

    /// `size` clamped, axis by axis, into the allowed range.
    pub fn constrain(&self, size: Extent) -> (r: Extent)
        requires
            self.wf(),
        ensures
            r.width == clamp(size.width, self.min.width, self.max.width),
            r.height == clamp(size.height, self.min.height, self.max.height),
            self.min.width <= r.width <= self.max.width,
            self.min.height <= r.height <= self.max.height,
    {
        Extent {
            width: clamp_exec(size.width, self.min.width, self.max.width),
            height: clamp_exec(size.height, self.min.height, self.max.height),
        }
    }
}

fn clamp_exec(v: u64, lo: u64, hi: u64) -> (r: u64)
    ensures
        r == clamp(v, lo, hi),
{
    if v < lo {
        lo
    } else if v > hi {
        hi
    } else {
        v
    }
}

} // verus!
