use crate::root::{
    floor_sqrt, isqrt, lemma_floor_sqrt_bounds, lemma_floor_sqrt_zero, lemma_square_bounds,
};
use crate::scalar::{lemma_quotient_bounded, quotient, Integral, Scalar};
use std::ops::{Div, Mul};
use vstd::prelude::*;
use vstd::std_specs::convert::FromSpec;
use vstd::std_specs::ops::{AddSpec, DivSpec, DivSpecImpl, MulSpec, MulSpecImpl, SubSpec};

verus! {

/// A location in space.
#[derive(Debug, PartialEq)]
pub struct Point<T> {
    pub x: T,
    pub y: T,
    pub z: T,
}

/// A displacement or direction in space.
#[derive(Debug, PartialEq)]
pub struct Vector<T> {
    pub x: T,
    pub y: T,
    pub z: T,
}

/// The error of an operation that a vector of magnitude zero does not admit.
#[derive(Debug, PartialEq, Eq, Clone, Copy)]
pub struct DegenerateVector;

impl<T: Integral> View for Point<T> {
    type V = (int, int, int);

    /// The integers that the coordinates stand for.
    open spec fn view(&self) -> (int, int, int) {
        (self.x.value(), self.y.value(), self.z.value())
    }
}

impl<T: Integral> View for Vector<T> {
    type V = (int, int, int);

    /// The integers that the coordinates stand for.
    open spec fn view(&self) -> (int, int, int) {
        (self.x.value(), self.y.value(), self.z.value())
    }
}

/// The sum of the squares of three integers.
pub open spec fn squared_norm(v: (int, int, int)) -> int {
    v.0 * v.0 + v.1 * v.1 + v.2 * v.2
}

/// What leads from `a` to `b`, coordinate by coordinate.
pub open spec fn difference(a: (int, int, int), b: (int, int, int)) -> (int, int, int) {
    (b.0 - a.0, b.1 - a.1, b.2 - a.2)
}

/// The integer as a `usize`, or the greatest `usize` where it is too large.
pub open spec fn saturate(v: int) -> usize
    recommends
        0 <= v,
{
    if v > usize::MAX {
        usize::MAX
    } else {
        v as usize
    }
}

impl<T> Point<T> {
    /// The point of the given coordinates.
    pub fn new(x: T, y: T, z: T) -> (p: Point<T>)
        ensures
            p == (Point { x, y, z }),
    {
        Point { x, y, z }
    }

    /// The first coordinate.
    pub fn x(&self) -> (r: &T)
        ensures
            *r == self.x,
    {
        &self.x
    }

    /// The second coordinate.
    pub fn y(&self) -> (r: &T)
        ensures
            *r == self.y,
    {
        &self.y
    }

    /// The third coordinate.
    pub fn z(&self) -> (r: &T)
        ensures
            *r == self.z,
    {
        &self.z
    }
}

impl<T: Default> Default for Point<T> {
    /// The origin: each coordinate is the scalar type's default value.
    fn default() -> (p: Self)
        ensures
            call_ensures(T::default, (), p.x),
            call_ensures(T::default, (), p.y),
            call_ensures(T::default, (), p.z),
    {
        Point { x: T::default(), y: T::default(), z: T::default() }
    }
}

impl<T: Default> Default for Vector<T> {
    /// The null vector: each coordinate is the scalar type's default value.
    fn default() -> (v: Self)
        ensures
            call_ensures(T::default, (), v.x),
            call_ensures(T::default, (), v.y),
            call_ensures(T::default, (), v.z),
    {
        Vector { x: T::default(), y: T::default(), z: T::default() }
    }
}

/// The square of the distance between two points, as an integer.
pub open spec fn squared_distance<T: Integral>(a: Point<T>, b: Point<T>) -> int {
    squared_norm(difference(a@, b@))
}

/// The distance between two points: the integer part of the root of the
/// squared distance, held to the range of `usize`.
pub open spec fn spec_distance<T: Integral>(a: Point<T>, b: Point<T>) -> usize {
    saturate(floor_sqrt(squared_distance(a, b)))
}

/// The distance between `a` and `b`, rounded toward zero.
///
/// The squared distance is computed in `T`, so it has to be in `T`'s range.
pub fn distance<T>(a: &Point<T>, b: &Point<T>) -> (d: usize) where T: Integral
    requires
        squared_distance(*a, *b) <= T::high(),
    ensures
        d == spec_distance(*a, *b),
{
    proof {
        T::lemma_bounds();
        lemma_square_bounds(b.x.value() - a.x.value());
        lemma_square_bounds(b.y.value() - a.y.value());
        lemma_square_bounds(b.z.value() - a.z.value());
        T::lemma_difference(b.x, a.x);
        T::lemma_difference(b.y, a.y);
        T::lemma_difference(b.z, a.z);
    }
    let x = b.x - a.x;
    let y = b.y - a.y;
    let z = b.z - a.z;
    proof {
        T::lemma_product(x, x);
        T::lemma_product(y, y);
        T::lemma_product(z, z);
        T::lemma_sum(x.mul_spec(x), y.mul_spec(y));
        T::lemma_sum(x.mul_spec(x).add_spec(y.mul_spec(y)), z.mul_spec(z));
    }
    let wide = ((x * x) + (y * y) + (z * z)).widen();
    let root = isqrt(wide as u128);
    if root > usize::MAX as u64 {
        usize::MAX
    } else {
        root as usize
    }
}

/// Half the sum of two scalars, as the type's own operators give it.
pub open spec fn spec_half<T: Scalar + From<i8>>(a: T, b: T) -> T {
    a.add_spec(b).div_spec(T::from_spec(2i8))
}

/// The type's operators admit the sum of two scalars and its division by two.
pub open spec fn half_defined<T: Scalar + From<i8>>(a: T, b: T) -> bool {
    a.add_req(b) && a.add_spec(b).div_req(T::from_spec(2i8))
}

/// The midpoint of two points: half the sum, coordinate by coordinate.
pub open spec fn spec_center<T: Scalar + From<i8>>(a: Point<T>, b: Point<T>) -> Point<T> {
    Point { x: spec_half(a.x, b.x), y: spec_half(a.y, b.y), z: spec_half(a.z, b.z) }
}

/// The type's operators admit the midpoint of two points.
pub open spec fn center_defined<T: Scalar + From<i8>>(a: Point<T>, b: Point<T>) -> bool {
    &&& T::obeys_add_spec()
    &&& T::obeys_div_spec()
    &&& T::obeys_from_spec()
    &&& half_defined(a.x, b.x)
    &&& half_defined(a.y, b.y)
    &&& half_defined(a.z, b.z)
}

/// The midpoint of `a` and `b`. Where `T`'s division rounds, so does the midpoint.
pub fn center<T>(a: &Point<T>, b: &Point<T>) -> (c: Point<T>) where T: Scalar + From<i8>
    requires
        center_defined(*a, *b),
    ensures
        c == spec_center(*a, *b),
{
    Point {
        x: (a.x + b.x) / T::from(2i8),
        y: (a.y + b.y) / T::from(2i8),
        z: (a.z + b.z) / T::from(2i8),
    }
}

/// The vector that leads from `a` to `b`, as the type's own `-` gives it.
pub open spec fn displacement<T: Scalar>(a: Point<T>, b: Point<T>) -> Vector<T> {
    Vector { x: b.x.sub_spec(a.x), y: b.y.sub_spec(a.y), z: b.z.sub_spec(a.z) }
}

/// The type's `-` admits the three differences that lead from `a` to `b`.
pub open spec fn displacement_defined<T: Scalar>(a: Point<T>, b: Point<T>) -> bool {
    &&& T::obeys_sub_spec()
    &&& b.x.sub_req(a.x)
    &&& b.y.sub_req(a.y)
    &&& b.z.sub_req(a.z)
}

impl<T: Scalar> Vector<T> {
    /// The vector of the given coordinates.
    pub fn new(x: T, y: T, z: T) -> (v: Vector<T>)
        ensures
            v == (Vector { x, y, z }),
    {
        Vector { x, y, z }
    }

    /// The vector that leads from `a` to `b`.
    pub fn from(a: &Point<T>, b: &Point<T>) -> (v: Vector<T>)
        requires
            displacement_defined(*a, *b),
        ensures
            v == displacement(*a, *b),
    {
        Vector { x: b.x - a.x, y: b.y - a.y, z: b.z - a.z }
    }
}

impl<T: Integral> Vector<T> {
    /// The magnitude: the integer part of the root of the squared norm.
    pub open spec fn magnitude(self) -> int {
        floor_sqrt(squared_norm(self@))
    }

    /// The vector divided by its magnitude, each coordinate rounded toward zero.
    pub open spec fn direction(self) -> (int, int, int) {
        (
            quotient(self.x.value(), self.magnitude()),
            quotient(self.y.value(), self.magnitude()),
            quotient(self.z.value(), self.magnitude()),
        )
    }

    /// The magnitude of the vector, rounded toward zero.
    ///
    /// The squared norm is computed in `T`, so it has to be in `T`'s range.
    pub fn size(&self) -> (s: T)
        requires
            squared_norm(self@) <= T::high(),
        ensures
            s.value() == self.magnitude(),
    {
        proof {
            T::lemma_bounds();
            lemma_square_bounds(self.x.value());
            lemma_square_bounds(self.y.value());
            lemma_square_bounds(self.z.value());
            T::lemma_product(self.x, self.x);
            T::lemma_product(self.y, self.y);
            T::lemma_product(self.z, self.z);
            T::lemma_sum(self.x.mul_spec(self.x), self.y.mul_spec(self.y));
            T::lemma_sum(
                self.x.mul_spec(self.x).add_spec(self.y.mul_spec(self.y)),
                self.z.mul_spec(self.z),
            );
            lemma_floor_sqrt_bounds(squared_norm(self@));
            lemma_square_bounds(self.magnitude());
        }
        let wide = (self.x * self.x + self.y * self.y + self.z * self.z).widen();
        let root = isqrt(wide as u128);
        T::narrow(root as i128)
    }

    /// The vector divided by its magnitude, or `DegenerateVector` where the
    /// magnitude is zero, which it is for the null vector only.
    ///
    /// The squared norm is computed in `T`, so it has to be in `T`'s range.
    pub fn normalize(self) -> (r: Result<Vector<T>, DegenerateVector>)
        requires
            squared_norm(self@) <= T::high(),
        ensures
            r.is_err() <==> self.magnitude() == 0,
            r.is_err() <==> self@ == (0int, 0int, 0int),
            r.is_ok() ==> r.unwrap()@ == self.direction(),
    {
        proof {
            lemma_square_bounds(self.x.value());
            lemma_square_bounds(self.y.value());
            lemma_square_bounds(self.z.value());
            lemma_floor_sqrt_zero(squared_norm(self@));
        }
        let size = self.size();
        if size.widen() == 0 {
            Err(DegenerateVector)
        } else {
            proof {
                T::lemma_bounds();
                T::lemma_value(self.x, self.y);
                T::lemma_value(self.z, size);
                lemma_quotient_bounded(self.x.value(), size.value());
                lemma_quotient_bounded(self.y.value(), size.value());
                lemma_quotient_bounded(self.z.value(), size.value());
                T::lemma_quotient(self.x, size);
                T::lemma_quotient(self.y, size);
                T::lemma_quotient(self.z, size);
            }
            Ok(self / size)
        }
    }
}

impl<T: Scalar> Mul<T> for Vector<T> {
    type Output = Vector<T>;

    /// Each coordinate multiplied by `other`.
    fn mul(self, other: T) -> (v: Vector<T>) {
        Vector { x: self.x * other, y: self.y * other, z: self.z * other }
    }
}

impl<T: Scalar> MulSpecImpl<T> for Vector<T> {
    open spec fn obeys_mul_spec() -> bool {
        T::obeys_mul_spec()
    }

    open spec fn mul_req(self, other: T) -> bool {
        self.x.mul_req(other) && self.y.mul_req(other) && self.z.mul_req(other)
    }

    open spec fn mul_spec(self, other: T) -> Vector<T> {
        Vector { x: self.x.mul_spec(other), y: self.y.mul_spec(other), z: self.z.mul_spec(other) }
    }
}

impl<T: Scalar> Div<T> for Vector<T> {
    type Output = Vector<T>;

    /// Each coordinate divided by `other`.
    fn div(self, other: T) -> (v: Vector<T>) {
        Vector { x: self.x / other, y: self.y / other, z: self.z / other }
    }
}

impl<T: Scalar> DivSpecImpl<T> for Vector<T> {
    open spec fn obeys_div_spec() -> bool {
        T::obeys_div_spec()
    }

    open spec fn div_req(self, other: T) -> bool {
        self.x.div_req(other) && self.y.div_req(other) && self.z.div_req(other)
    }

    open spec fn div_spec(self, other: T) -> Vector<T> {
        Vector { x: self.x.div_spec(other), y: self.y.div_spec(other), z: self.z.div_spec(other) }
    }
}

} // verus!
