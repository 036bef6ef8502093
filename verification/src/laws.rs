use crate::geometry::{
    center_defined, difference, displacement, displacement_defined, half_defined, saturate,
    spec_center, spec_distance, spec_half, squared_distance, squared_norm, Point, Vector,
};
use crate::root::{
    floor_sqrt, lemma_floor_sqrt_bounds, lemma_floor_sqrt_is, lemma_next_square,
    lemma_square_bounds, lemma_square_monotonic,
};
use crate::scalar::{quotient, Integral};
use vstd::prelude::*;
use vstd::std_specs::convert::FromSpec;
use vstd::std_specs::ops::{AddSpec, DivSpec, MulSpec};

verus! {

/// Half the sum of two integers, rounded toward zero, coordinate by coordinate.
pub open spec fn midpoint(a: (int, int, int), b: (int, int, int)) -> (int, int, int) {
    (quotient(a.0 + b.0, 2), quotient(a.1 + b.1, 2), quotient(a.2 + b.2, 2))
}

/// Over integral scalars half a sum is defined where the sum is in range,
/// and stands for half the sum of the integers, rounded toward zero.
pub proof fn lemma_half_value<T: Integral>(a: T, b: T)
    ensures
        half_defined(a, b) <==> T::low() <= a.value() + b.value() <= T::high(),
        half_defined(a, b) ==> spec_half(a, b).value() == quotient(a.value() + b.value(), 2),
{
    T::lemma_bounds();
    T::lemma_sum(a, b);
    T::lemma_literal(2i8);
    T::lemma_quotient(a.add_spec(b), T::from_spec(2i8));
    T::lemma_value(a.add_spec(b), a.add_spec(b));
}

/// Over integral scalars the midpoint is defined where the three sums of
/// coordinates are in range, and stands for the midpoint of the integers.
pub proof fn lemma_center_view<T: Integral>(a: Point<T>, b: Point<T>)
    ensures
        center_defined(a, b) <==> {
            &&& T::low() <= a@.0 + b@.0 <= T::high()
            &&& T::low() <= a@.1 + b@.1 <= T::high()
            &&& T::low() <= a@.2 + b@.2 <= T::high()
        },
        center_defined(a, b) ==> spec_center(a, b)@ == midpoint(a@, b@),
{
    T::lemma_sum(a.x, b.x);
    T::lemma_quotient(a.x, b.x);
    T::lemma_literal(2i8);
    lemma_half_value(a.x, b.x);
    lemma_half_value(a.y, b.y);
    lemma_half_value(a.z, b.z);
}

/// The midpoint of a point and itself is that point.
pub proof fn lemma_center_of_one_point<T: Integral>(p: Point<T>)
    requires
        center_defined(p, p),
    ensures
        spec_center(p, p) == p,
{
    lemma_center_view(p, p);
    T::lemma_value(spec_center(p, p).x, p.x);
    T::lemma_value(spec_center(p, p).y, p.y);
    T::lemma_value(spec_center(p, p).z, p.z);
}

/// The midpoint does not depend on the order of the two points.
pub proof fn lemma_center_symmetric<T: Integral>(a: Point<T>, b: Point<T>)
    requires
        center_defined(a, b),
    ensures
        center_defined(b, a),
        spec_center(a, b) == spec_center(b, a),
{
    lemma_center_view(a, b);
    lemma_center_view(b, a);
    T::lemma_value(spec_center(a, b).x, spec_center(b, a).x);
    T::lemma_value(spec_center(a, b).y, spec_center(b, a).y);
    T::lemma_value(spec_center(a, b).z, spec_center(b, a).z);
}

/// The distance does not depend on the order of the two points, and it is
/// defined for one order where it is for the other.
pub proof fn lemma_distance_symmetric<T: Integral>(a: Point<T>, b: Point<T>)
    ensures
        squared_distance(a, b) == squared_distance(b, a),
        spec_distance(a, b) == spec_distance(b, a),
{
    let d = difference(a@, b@);
    let e = difference(b@, a@);
    assert(d.0 * d.0 == e.0 * e.0) by (nonlinear_arith)
        requires
            d.0 == -e.0,
    ;
    assert(d.1 * d.1 == e.1 * e.1) by (nonlinear_arith)
        requires
            d.1 == -e.1,
    ;
    assert(d.2 * d.2 == e.2 * e.2) by (nonlinear_arith)
        requires
            d.2 == -e.2,
    ;
}

/// The distance of a point to itself is defined and is zero.
pub proof fn lemma_distance_to_itself<T: Integral>(p: Point<T>)
    ensures
        squared_distance(p, p) == 0,
        squared_distance(p, p) <= T::high(),
        spec_distance(p, p) == 0,
{
    T::lemma_bounds();
    let d = difference(p@, p@);
    assert(d == (0int, 0int, 0int));
    assert(squared_norm(d) == 0);
}

/// Over integral scalars the vector from `a` to `b` is defined where the
/// three differences are in range, and stands for the difference of the integers.
pub proof fn lemma_displacement_view<T: Integral>(a: Point<T>, b: Point<T>)
    ensures
        displacement_defined(a, b) <==> {
            &&& T::low() <= b@.0 - a@.0 <= T::high()
            &&& T::low() <= b@.1 - a@.1 <= T::high()
            &&& T::low() <= b@.2 - a@.2 <= T::high()
        },
        displacement_defined(a, b) ==> displacement(a, b)@ == difference(a@, b@),
{
    T::lemma_difference(b.x, a.x);
    T::lemma_difference(b.y, a.y);
    T::lemma_difference(b.z, a.z);
}

/// Where the distance between two points is defined, so are the vector from
/// one to the other and its magnitude, and the magnitude, held to the range
/// of `usize`, is the distance.
pub proof fn lemma_size_is_distance<T: Integral>(a: Point<T>, b: Point<T>)
    requires
        squared_distance(a, b) <= T::high(),
    ensures
        displacement_defined(a, b),
        squared_norm(displacement(a, b)@) <= T::high(),
        saturate(displacement(a, b).magnitude()) == spec_distance(a, b),
{
    T::lemma_bounds();
    let d = difference(a@, b@);
    lemma_square_bounds(d.0);
    lemma_square_bounds(d.1);
    lemma_square_bounds(d.2);
    lemma_displacement_view(a, b);
}

/// Over integral scalars a vector times a scalar is defined where the three
/// products are in range, and stands for the products of the integers.
pub proof fn lemma_product_view<T: Integral>(v: Vector<T>, k: T)
    ensures
        Vector::<T>::obeys_mul_spec(),
        v.mul_req(k) <==> {
            &&& T::low() <= v@.0 * k.value() <= T::high()
            &&& T::low() <= v@.1 * k.value() <= T::high()
            &&& T::low() <= v@.2 * k.value() <= T::high()
        },
        v.mul_req(k) ==> v.mul_spec(k)@ == (
            v@.0 * k.value(),
            v@.1 * k.value(),
            v@.2 * k.value(),
        ),
{
    T::lemma_product(v.x, k);
    T::lemma_product(v.y, k);
    T::lemma_product(v.z, k);
}

/// Over integral scalars a vector divided by a scalar is defined where the
/// scalar is not zero and the three quotients are in range, and stands for
/// the quotients of the integers, rounded toward zero.
pub proof fn lemma_quotient_view<T: Integral>(v: Vector<T>, k: T)
    ensures
        Vector::<T>::obeys_div_spec(),
        v.div_req(k) <==> {
            &&& k.value() != 0
            &&& T::low() <= quotient(v@.0, k.value()) <= T::high()
            &&& T::low() <= quotient(v@.1, k.value()) <= T::high()
            &&& T::low() <= quotient(v@.2, k.value()) <= T::high()
        },
        v.div_req(k) ==> v.div_spec(k)@ == (
            quotient(v@.0, k.value()),
            quotient(v@.1, k.value()),
            quotient(v@.2, k.value()),
        ),
{
    T::lemma_quotient(v.x, k);
    T::lemma_quotient(v.y, k);
    T::lemma_quotient(v.z, k);
}

/// One of the three integers is, up to its sign, the integer part of the
/// root of the squared norm: the vector is as long as that coordinate alone.
pub open spec fn spans_magnitude(v: (int, int, int)) -> bool {
    let m = floor_sqrt(squared_norm(v));
    v.0 == m || v.0 == -m || v.1 == m || v.1 == -m || v.2 == m || v.2 == -m
}

/// An integer divided by a positive one that is no nearer to zero gives a
/// sign: one or minus one where the two are equally far from zero, else zero.
proof fn lemma_quotient_sign(x: int, m: int)
    requires
        0 < m,
        -m <= x <= m,
    ensures
        quotient(x, m) == if x == m {
            1int
        } else if x == -m {
            -1int
        } else {
            0int
        },
{
    let a = if x >= 0 {
        x
    } else {
        -x
    };
    assert(a / m == if a == m {
        1int
    } else {
        0int
    }) by (nonlinear_arith)
        requires
            0 < m,
            0 <= a <= m,
    ;
}

/// No coordinate is further from zero than the magnitude, rounded as it is.
proof fn lemma_coordinate_bounded(x: int, rest: int, m: int)
    requires
        0 <= rest,
        0 <= m,
        x * x + rest < m * m + 2 * m + 1,
    ensures
        -m <= x <= m,
{
    lemma_next_square(m);
    let a = if x >= 0 {
        x
    } else {
        -x
    };
    assert(a * a == x * x) by (nonlinear_arith)
        requires
            a == x || a == -x,
    ;
    if a > m {
        lemma_square_monotonic(m + 1, a);
    }
}

/// A vector of magnitude other than zero, divided by its magnitude, has the
/// magnitude one where one of its coordinates alone is as long as the vector,
/// and zero where none is: rounding toward zero then leaves nothing of it.
pub proof fn lemma_normalized_size<T: Integral>(v: Vector<T>)
    requires
        squared_norm(v@) <= T::high(),
        v.magnitude() != 0,
    ensures
        squared_norm(v.direction()) <= T::high(),
        spans_magnitude(v@) ==> floor_sqrt(squared_norm(v.direction())) == 1,
        !spans_magnitude(v@) ==> floor_sqrt(squared_norm(v.direction())) == 0,
{
    T::lemma_bounds();
    let (x, y, z) = v@;
    let m = v.magnitude();
    lemma_square_bounds(x);
    lemma_square_bounds(y);
    lemma_square_bounds(z);
    lemma_floor_sqrt_bounds(squared_norm(v@));
    lemma_coordinate_bounded(x, y * y + z * z, m);
    lemma_coordinate_bounded(y, x * x + z * z, m);
    lemma_coordinate_bounded(z, x * x + y * y, m);
    lemma_quotient_sign(x, m);
    lemma_quotient_sign(y, m);
    lemma_quotient_sign(z, m);
    let d = v.direction();
    assert(d.0 * d.0 == if d.0 == 0 {
        0int
    } else {
        1int
    }) by (nonlinear_arith)
        requires
            -1 <= d.0 <= 1,
    ;
    assert(d.1 * d.1 == if d.1 == 0 {
        0int
    } else {
        1int
    }) by (nonlinear_arith)
        requires
            -1 <= d.1 <= 1,
    ;
    assert(d.2 * d.2 == if d.2 == 0 {
        0int
    } else {
        1int
    }) by (nonlinear_arith)
        requires
            -1 <= d.2 <= 1,
    ;
    let n = squared_norm(d);
    assert(0 <= n <= 3);
    if n == 0 {
        lemma_floor_sqrt_is(n, 0);
    } else {
        lemma_floor_sqrt_is(n, 1);
    }
}

} // verus!
