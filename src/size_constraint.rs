use vstd::prelude::*;

use crate::geometry::{limit_value, max_len, min_len, Constraints, Extent, Limit, UNBOUNDED};

verus! {

/// Both boxes at once: the larger minimum and the smaller maximum per axis.
pub open spec fn intersection(a: Constraints, b: Constraints) -> Constraints {
    Constraints {
        min: Extent { width: max_len(a.min.width, b.min.width), height: max_len(a.min.height, b.min.height) },
        max: Extent { width: min_len(a.max.width, b.max.width), height: min_len(a.max.height, b.max.height) },
    }
}

/// The constraints a wrapped child is laid out under.
#[derive(Clone, Copy, Debug, PartialEq, Eq, Structural)]
pub enum ChildBox {
    /// The incoming and configured boxes intersect in this box.
    Fits(Constraints),
    /// They do not intersect; the incoming box is passed on as it was.
    Fallback(Constraints),
}

impl ChildBox {
    pub fn constraints(&self) -> (r: Constraints)
        ensures
            r == match *self {
                ChildBox::Fits(c) => c,
                ChildBox::Fallback(c) => c,
            },
    {
        match self {
            ChildBox::Fits(c) => *c,
            ChildBox::Fallback(c) => *c,
        }
    }

    /// Whether the configured box had to be ignored, which deserves a warning.
    pub fn is_fallback(&self) -> (r: bool)
        ensures
            r == (self is Fallback),
    {
        match self {
            ChildBox::Fits(_) => false,
            ChildBox::Fallback(_) => true,
        }
    }
}

/// A configured box that the constraints passed to a wrapped child are held to.
#[derive(Clone, Copy, Debug, PartialEq, Eq, Structural)]
pub struct SizeConstraint {
    pub constraint: Constraints,
}

impl SizeConstraint {
    pub fn new(constraint: Constraints) -> (r: SizeConstraint)
        ensures
            r.constraint == constraint,
    {
        SizeConstraint { constraint }
    }

    /// The box given by a range of widths and a range of heights; an open
    /// start means zero and an open end means unbounded.
    pub fn from_limits(x_start: Limit, x_end: Limit, y_start: Limit, y_end: Limit) -> (r: SizeConstraint)
        ensures
            r.constraint.min.width == limit_value(x_start, 0),
            r.constraint.max.width == limit_value(x_end, UNBOUNDED),
            r.constraint.min.height == limit_value(y_start, 0),
            r.constraint.max.height == limit_value(y_end, UNBOUNDED),
    {
        let min = Extent::new(x_start.value_or(0), y_start.value_or(0));
        let max = Extent::new(x_end.value_or(UNBOUNDED), y_end.value_or(UNBOUNDED));
        SizeConstraint::new(Constraints::new(min, max))
    }

    /// The constraints for the child under incoming constraints `bc`: their
    /// intersection with the configured box where that is feasible on both
    /// axes, else `bc` unchanged.
    pub fn child_constraints(&self, bc: &Constraints) -> (r: ChildBox)
        ensures
            intersection(*bc, self.constraint).wf() ==> r == ChildBox::Fits(intersection(*bc, self.constraint)),
            !intersection(*bc, self.constraint).wf() ==> r == ChildBox::Fallback(*bc),
    {
        let a = bc;
        let b = &self.constraint;
        let min = Extent::new(
            if a.min.width >= b.min.width { a.min.width } else { b.min.width },
            if a.min.height >= b.min.height { a.min.height } else { b.min.height },
        );
        let max = Extent::new(
            if a.max.width <= b.max.width { a.max.width } else { b.max.width },
            if a.max.height <= b.max.height { a.max.height } else { b.max.height },
        );
        if min.width > max.width || min.height > max.height {
            ChildBox::Fallback(*bc)
        } else {
            ChildBox::Fits(Constraints::new(min, max))
        }
    }
}

} // verus!
