//! Points of the canvas and the midpoint rule of the chaos game.

use vstd::prelude::*;

verus! {

/// A position on the canvas, in whole canvas units.
#[derive(Clone, Copy, Debug, PartialEq, Eq, Structural)]
pub struct Point {
    pub x: i64,
    pub y: i64,
}

/// Half of the sum of two coordinates, rounded towards negative infinity.
pub open spec fn half_sum(a: int, b: int) -> int {
    (a + b) / 2
}

/// The point halfway between `a` and `b`, each coordinate rounded towards
/// negative infinity.
pub open spec fn midpoint(a: Point, b: Point) -> Point {
    Point { x: half_sum(a.x as int, b.x as int) as i64, y: half_sum(a.y as int, b.y as int) as i64 }
}

/// Half of a sum lies between the two summands.
pub proof fn lemma_half_sum_between(a: int, b: int)
    ensures
        a <= b ==> a <= half_sum(a, b) <= b,
        b <= a ==> b <= half_sum(a, b) <= a,
        half_sum(a, b) == half_sum(b, a),
        half_sum(a, a) == a,
{
}

/// Half of the sum of two `i64` values, rounded towards negative infinity.
pub fn half_sum_i64(a: i64, b: i64) -> (h: i64)
    ensures
        h as int == half_sum(a as int, b as int),
{
    let sum: i128 = a as i128 + b as i128;
    let half: i128 = if sum >= 0 {
        sum / 2
    } else {
        -((1 - sum) / 2)
    };
    half as i64
}

impl Point {
    /// The point with the given coordinates.
    pub fn new(x: i64, y: i64) -> (p: Point)
        ensures
            p == (Point { x, y }),
    {
        Point { x, y }
    }

    /// The point halfway between `self` and `other`.
    pub fn midpoint(self, other: Point) -> (m: Point)
        ensures
            m == midpoint(self, other),
            m.x as int == (self.x as int + other.x as int) / 2,
            m.y as int == (self.y as int + other.y as int) / 2,
    {
        proof {
            lemma_half_sum_between(self.x as int, other.x as int);
            lemma_half_sum_between(self.y as int, other.y as int);
        }
        Point { x: half_sum_i64(self.x, other.x), y: half_sum_i64(self.y, other.y) }
    }
}

} // verus!
