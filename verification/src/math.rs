use crate::root::{floor_sqrt, isqrt, lemma_square_bounds};
use crate::scalar::quotient;
use vstd::prelude::*;

verus! {

/// A location in space, of 32-bit integer coordinates.
#[derive(Debug)]
pub struct Point {
    pub x: i32,
    pub y: i32,
    pub z: i32,
}

impl Point {
    /// The point of the given coordinates.
    pub fn new(x: i32, y: i32, z: i32) -> (p: Point)
        ensures
            p == (Point { x, y, z }),
    {
        Point { x, y, z }
    }
}

impl Default for Point {
    /// The origin.
    fn default() -> (p: Point)
        ensures
            p == (Point { x: 0, y: 0, z: 0 }),
    {
        Point { x: 0, y: 0, z: 0 }
    }
}

/// The square of the distance between two points.
pub open spec fn squared_distance(a: Point, b: Point) -> int {
    (b.x - a.x) * (b.x - a.x) + (b.y - a.y) * (b.y - a.y) + (b.z - a.z) * (b.z - a.z)
}

/// The midpoint of two points, each coordinate rounded toward zero.
pub open spec fn spec_center(a: Point, b: Point) -> Point {
    Point {
        x: quotient(a.x + b.x, 2) as i32,
        y: quotient(a.y + b.y, 2) as i32,
        z: quotient(a.z + b.z, 2) as i32,
    }
}

/// The three sums of coordinates are in the range of `i32`.
pub open spec fn center_defined(a: Point, b: Point) -> bool {
    &&& i32::MIN <= a.x + b.x <= i32::MAX
    &&& i32::MIN <= a.y + b.y <= i32::MAX
    &&& i32::MIN <= a.z + b.z <= i32::MAX
}

/// The distance between `a` and `b`, rounded toward zero.
///
/// The squared distance is computed in `i32`, so it has to be in that range.
pub fn distance(a: &Point, b: &Point) -> (d: i32)
    requires
        squared_distance(*a, *b) <= i32::MAX,
    ensures
        d == floor_sqrt(squared_distance(*a, *b)),
{
    proof {
        lemma_square_bounds(b.x - a.x);
        lemma_square_bounds(b.y - a.y);
        lemma_square_bounds(b.z - a.z);
    }
    let x = b.x - a.x;
    let y = b.y - a.y;
    let z = b.z - a.z;
    let sum = (x * x) + (y * y) + (z * z);
    let root = isqrt(sum as u128);
    proof {
        lemma_square_bounds(root as int);
    }
    root as i32
}

/// The midpoint of `a` and `b`, each coordinate rounded toward zero.
pub fn center(a: &Point, b: &Point) -> (c: Point)
    requires
        center_defined(*a, *b),
    ensures
        c == spec_center(*a, *b),
{
    Point { x: (a.x + b.x) / 2, y: (a.y + b.y) / 2, z: (a.z + b.z) / 2 }
}

/// The midpoint of a point and itself is that point.
pub proof fn lemma_center_of_one_point(p: Point)
    requires
        center_defined(p, p),
    ensures
        spec_center(p, p) == p,
{
}

/// The midpoint does not depend on the order of the two points.
pub proof fn lemma_center_symmetric(a: Point, b: Point)
    ensures
        center_defined(a, b) == center_defined(b, a),
        spec_center(a, b) == spec_center(b, a),
{
}

/// The distance does not depend on the order of the two points.
pub proof fn lemma_distance_symmetric(a: Point, b: Point)
    ensures
        squared_distance(a, b) == squared_distance(b, a),
{
    assert((b.x - a.x) * (b.x - a.x) == (a.x - b.x) * (a.x - b.x)) by (nonlinear_arith);
    assert((b.y - a.y) * (b.y - a.y) == (a.y - b.y) * (a.y - b.y)) by (nonlinear_arith);
    assert((b.z - a.z) * (b.z - a.z) == (a.z - b.z) * (a.z - b.z)) by (nonlinear_arith);
}

/// The distance of a point to itself is zero.
pub proof fn lemma_distance_to_itself(p: Point)
    ensures
        squared_distance(p, p) == 0,
        floor_sqrt(squared_distance(p, p)) == 0,
{
}

} // verus!
