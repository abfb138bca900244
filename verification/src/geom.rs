//! 2D integer coordinates with a squared-distance metric.

use vstd::prelude::*;

verus! {

/// A 2D integer coordinate.
#[derive(Debug, Default, Copy, Clone, PartialEq, Eq, Structural)]
pub struct Vec2 {
    pub x: i64,
    pub y: i64,
}

/// Squared Euclidean distance between `a` and `b`, as a mathematical integer.
/// Square roots are avoided everywhere so that ties break exactly.
pub open spec fn sq_dist(a: Vec2, b: Vec2) -> int {
    (a.x - b.x) * (a.x - b.x) + (a.y - b.y) * (a.y - b.y)
}

/// The coordinate differences and the squared distance between `a` and `b`
/// are representable in `i64`.
pub open spec fn dist_fits(a: Vec2, b: Vec2) -> bool {
    &&& i64::MIN <= a.x - b.x <= i64::MAX
    &&& i64::MIN <= a.y - b.y <= i64::MAX
    &&& sq_dist(a, b) <= i64::MAX
}

impl Vec2 {
    /// Squared Euclidean distance from `self` to `pos`.
    pub fn distance(&self, pos: Vec2) -> (r: i64)
        requires
            dist_fits(*self, pos),
        ensures
            r == sq_dist(*self, pos),
    {
        let dx = self.x - pos.x;
        let dy = self.y - pos.y;
        proof {
            assert(dx * dx >= 0 && dy * dy >= 0) by (nonlinear_arith);
        }
        dx * dx + dy * dy
    }
}

} // verus!
