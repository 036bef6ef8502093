use std::ops::{Add, Div, Mul, Sub};
use vstd::prelude::*;
use vstd::std_specs::convert::FromSpec;
use vstd::std_specs::ops::{AddSpec, DivSpec, MulSpec, SubSpec};

verus! {

/// The numeric types that may stand as coordinates: values that are copied,
/// compared, and closed under the four arithmetic operators.
pub trait Scalar: Copy + PartialEq + Sub<Output = Self> + Mul<Output = Self> + Add<
    Output = Self,
> + Div<Output = Self> {

}

impl<
    T: Copy + PartialEq + Sub<Output = T> + Mul<Output = T> + Add<Output = T> + Div<Output = T>,
> Scalar for T {

}

/// Division of integers that rounds toward zero.
pub open spec fn quotient(a: int, b: int) -> int
    recommends
        b != 0,
{
    if a >= 0 {
        a / b
    } else {
        -((-a) / b)
    }
}

/// A quotient is no further from zero than its dividend, and only a
/// division by minus one turns a negative dividend into its opposite.
pub proof fn lemma_quotient_bounded(a: int, b: int)
    requires
        b != 0,
    ensures
        a >= 0 ==> -a <= quotient(a, b) <= a,
        a <= 0 ==> a <= quotient(a, b) <= -a,
        b == -1 ==> quotient(a, b) == -a,
        a < 0 && b != -1 ==> quotient(a, b) < -a,
{
    let m = if a >= 0 {
        a
    } else {
        -a
    };
    assert(-m <= m / b <= m) by (nonlinear_arith)
        requires
            m >= 0,
            b != 0,
    ;
    if m > 0 && b != -1 {
        assert(-m < m / b) by (nonlinear_arith)
            requires
                m > 0,
                b != 0,
                b != -1,
        ;
    }
}

/// A scalar that stands for an integer of a bounded range, and whose
/// operators are those of the integers wherever the result is in that range.
///
/// Square roots are not taken in the scalar type itself: `widen` and `narrow`
/// lead to the wide integer type in which they are taken, and back.
pub trait Integral: Scalar + From<i8> {
    /// The integer that the scalar stands for.
    spec fn value(self) -> int;

    /// The least integer that the type holds.
    spec fn low() -> int;

    /// The greatest integer that the type holds.
    spec fn high() -> int;

    /// The range is that of a signed machine integer of at most 128 bits.
    proof fn lemma_bounds()
        ensures
            Self::low() == -Self::high() - 1,
            i8::MAX <= Self::high() <= i128::MAX,
    ;

    /// Every scalar stands for an integer of the range, and for one only.
    proof fn lemma_value(a: Self, b: Self)
        ensures
            Self::low() <= a.value() <= Self::high(),
            a.value() == b.value() ==> a == b,
    ;

    /// `+` adds the integers, and is defined where the sum is in range.
    proof fn lemma_sum(a: Self, b: Self)
        ensures
            Self::obeys_add_spec(),
            a.add_req(b) <==> Self::low() <= a.value() + b.value() <= Self::high(),
            a.add_req(b) ==> a.add_spec(b).value() == a.value() + b.value(),
    ;

    /// `-` subtracts the integers, and is defined where the difference is in range.
    proof fn lemma_difference(a: Self, b: Self)
        ensures
            Self::obeys_sub_spec(),
            a.sub_req(b) <==> Self::low() <= a.value() - b.value() <= Self::high(),
            a.sub_req(b) ==> a.sub_spec(b).value() == a.value() - b.value(),
    ;

    /// `*` multiplies the integers, and is defined where the product is in range.
    proof fn lemma_product(a: Self, b: Self)
        ensures
            Self::obeys_mul_spec(),
            a.mul_req(b) <==> Self::low() <= a.value() * b.value() <= Self::high(),
            a.mul_req(b) ==> a.mul_spec(b).value() == a.value() * b.value(),
    ;

    /// `/` divides the integers, rounding toward zero, and is defined where
    /// the divisor is not zero and the quotient is in range.
    proof fn lemma_quotient(a: Self, b: Self)
        ensures
            Self::obeys_div_spec(),
            a.div_req(b) <==> b.value() != 0 && Self::low() <= quotient(a.value(), b.value())
                <= Self::high(),
            a.div_req(b) ==> a.div_spec(b).value() == quotient(a.value(), b.value()),
    ;

    /// A small literal converts to the scalar that stands for it.
    proof fn lemma_literal(v: i8)
        ensures
            Self::obeys_from_spec(),
            Self::from_spec(v).value() == v,
    ;

    /// The scalar as a wide integer.
    fn widen(self) -> (w: i128)
        ensures
            w == self.value(),
    ;

    /// The scalar that stands for a wide integer of the range.
    fn narrow(w: i128) -> (s: Self)
        requires
            Self::low() <= w <= Self::high(),
        ensures
            s.value() == w,
    ;
}

impl Integral for i16 {
    open spec fn value(self) -> int {
        self as int
    }

    open spec fn low() -> int {
        i16::MIN as int
    }

    open spec fn high() -> int {
        i16::MAX as int
    }

    proof fn lemma_bounds() {
    }

    proof fn lemma_value(a: Self, b: Self) {
    }

    proof fn lemma_sum(a: Self, b: Self) {
    }

    proof fn lemma_difference(a: Self, b: Self) {
    }

    proof fn lemma_product(a: Self, b: Self) {
    }

    proof fn lemma_quotient(a: Self, b: Self) {
        if b != 0 {
            lemma_quotient_bounded(a as int, b as int);
        }
    }

    proof fn lemma_literal(v: i8) {
    }

    fn widen(self) -> (w: i128) {
        self as i128
    }

    fn narrow(w: i128) -> (s: Self) {
        w as i16
    }
}

impl Integral for i32 {
    open spec fn value(self) -> int {
        self as int
    }

    open spec fn low() -> int {
        i32::MIN as int
    }

    open spec fn high() -> int {
        i32::MAX as int
    }

    proof fn lemma_bounds() {
    }

    proof fn lemma_value(a: Self, b: Self) {
    }

    proof fn lemma_sum(a: Self, b: Self) {
    }

    proof fn lemma_difference(a: Self, b: Self) {
    }

    proof fn lemma_product(a: Self, b: Self) {
    }

    proof fn lemma_quotient(a: Self, b: Self) {
        if b != 0 {
            lemma_quotient_bounded(a as int, b as int);
        }
    }

    proof fn lemma_literal(v: i8) {
    }

    fn widen(self) -> (w: i128) {
        self as i128
    }

    fn narrow(w: i128) -> (s: Self) {
        w as i32
    }
}

impl Integral for i64 {
    open spec fn value(self) -> int {
        self as int
    }

    open spec fn low() -> int {
        i64::MIN as int
    }

    open spec fn high() -> int {
        i64::MAX as int
    }

    proof fn lemma_bounds() {
    }

    proof fn lemma_value(a: Self, b: Self) {
    }

    proof fn lemma_sum(a: Self, b: Self) {
    }

    proof fn lemma_difference(a: Self, b: Self) {
    }

    proof fn lemma_product(a: Self, b: Self) {
    }

    proof fn lemma_quotient(a: Self, b: Self) {
        if b != 0 {
            lemma_quotient_bounded(a as int, b as int);
        }
    }

    proof fn lemma_literal(v: i8) {
    }

    fn widen(self) -> (w: i128) {
        self as i128
    }

    fn narrow(w: i128) -> (s: Self) {
        w as i64
    }
}

impl Integral for i128 {
    open spec fn value(self) -> int {
        self as int
    }

    open spec fn low() -> int {
        i128::MIN as int
    }

    open spec fn high() -> int {
        i128::MAX as int
    }

    proof fn lemma_bounds() {
    }

    proof fn lemma_value(a: Self, b: Self) {
    }

    proof fn lemma_sum(a: Self, b: Self) {
    }

    proof fn lemma_difference(a: Self, b: Self) {
    }

    proof fn lemma_product(a: Self, b: Self) {
    }

    proof fn lemma_quotient(a: Self, b: Self) {
        if b != 0 {
            lemma_quotient_bounded(a as int, b as int);
        }
    }

    proof fn lemma_literal(v: i8) {
    }

    fn widen(self) -> (w: i128) {
        self
    }

    fn narrow(w: i128) -> (s: Self) {
        w
    }
}

impl Integral for isize {
    open spec fn value(self) -> int {
        self as int
    }

    open spec fn low() -> int {
        isize::MIN as int
    }

    open spec fn high() -> int {
        isize::MAX as int
    }

    proof fn lemma_bounds() {
    }

    proof fn lemma_value(a: Self, b: Self) {
    }

    proof fn lemma_sum(a: Self, b: Self) {
    }

    proof fn lemma_difference(a: Self, b: Self) {
    }

    proof fn lemma_product(a: Self, b: Self) {
    }

    proof fn lemma_quotient(a: Self, b: Self) {
        if b != 0 {
            lemma_quotient_bounded(a as int, b as int);
        }
    }

    proof fn lemma_literal(v: i8) {
    }

    fn widen(self) -> (w: i128) {
        self as i128
    }

    fn narrow(w: i128) -> (s: Self) {
        w as isize
    }
}

} // verus!
