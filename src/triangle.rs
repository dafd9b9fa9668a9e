use vstd::prelude::*;
use crate::metrics::Metrics;

verus! {

/// A triangle given by its base and height, with the area last computed.
#[derive(Debug, Clone, Copy, PartialEq, Eq, Structural)]
pub struct Triangle {
    pub base: isize,
    pub height: isize,
    pub area: isize,
}

/// The area formula of a triangle: the factor one half is taken in integer
/// arithmetic, where it truncates to zero before it multiplies.
pub open spec fn triangle_area(base: int, height: int) -> int {
    (1int / 2) * base * height
}

impl Triangle {
    /// A triangle with the given base and height, whose area is not yet
    /// computed (zero).
    pub fn new(base: isize, height: isize) -> (t: Triangle)
        ensures
            t.base == base,
            t.height == height,
            t.area == 0,
    {
        Triangle { base, height, area: 0 }
    }
}

impl Metrics for Triangle {
    open spec fn dims(&self) -> Seq<int> {
        seq![self.base as int, self.height as int]
    }

    open spec fn stored_area(&self) -> int {
        self.area as int
    }

    open spec fn formula_area(&self) -> int {
        triangle_area(self.base as int, self.height as int)
    }

    fn calculate_area(&mut self)
        ensures
            final(self).base == old(self).base,
            final(self).height == old(self).height,
            final(self).area == triangle_area(old(self).base as int, old(self).height as int),
    {
        assert(0 * self.base == 0 && 0 * self.height == 0) by (nonlinear_arith);
        self.area = 1 / 2 * self.base * self.height;
    }

    fn area(&self) -> (r: isize) {
        self.area
    }
}

} // verus!
