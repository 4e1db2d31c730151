//! A generic 2D point with a Manhattan-distance operation on integer
//! coordinates.

use vstd::math::abs;
use vstd::prelude::*;

verus! {

/// A pair of coordinates of any one type.
#[derive(Debug, Clone, PartialEq)]
pub struct Point<T> {
    pub x: T,
    pub y: T,
}

impl<T> Point<T> {
    /// Stores both coordinates verbatim.
    pub fn new(x: T, y: T) -> (r: Self)
        ensures
            r.x == x,
            r.y == y,
    {
        Point { x, y }
    }
}

/// The Manhattan (taxicab) distance between two integer points:
/// `|p.x - q.x| + |p.y - q.y|`.
pub open spec fn manhattan(p: Point<i32>, q: Point<i32>) -> int {
    abs(p.x - q.x) as int + abs(p.y - q.y) as int
}

impl Point<i32> {
    /// The Manhattan distance to `other`, in the coordinate type itself.
    /// The preconditions keep both coordinate differences and their sum
    /// within `i32`.
    pub fn manhattan_distance(&self, other: &Self) -> (r: i32)
        requires
            -(i32::MAX as int) <= self.x - other.x <= i32::MAX as int,
            -(i32::MAX as int) <= self.y - other.y <= i32::MAX as int,
            manhattan(*self, *other) <= i32::MAX as int,
        ensures
            r == manhattan(*self, *other),
    {
        let dx = self.x - other.x;
        let dy = self.y - other.y;
        let adx = if dx < 0 { -dx } else { dx };
        let ady = if dy < 0 { -dy } else { dy };
        adx + ady
    }
}

/// The Manhattan distance is symmetric, non-negative, and zero exactly
/// when the two points are equal.
pub proof fn lemma_manhattan_distance_metric(p: Point<i32>, q: Point<i32>)
    ensures
        manhattan(p, q) == manhattan(q, p),
        manhattan(p, q) >= 0,
        manhattan(p, q) == 0 <==> p == q,
{
}

} // verus!
