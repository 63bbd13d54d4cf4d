//! Three-component positions, and the conversions between positions,
//! directions and colors.

use vstd::prelude::*;
use vstd::std_specs::ops::{AddSpec, NegSpec};
use vstd::std_specs::convert::FromSpec;
use core::ops::Neg;
use crate::scalar::{Scalar, zero, one};
use crate::vector::{Vector, sum_spec, sum_ok, negation, negation_ok};
use crate::color::Color;

verus! {

#[derive(Clone, Copy, PartialEq, Debug)]
pub struct Point<T> {
    pub x: T,
    pub y: T,
    pub z: T,
}

/// The direction with the same coordinates as `p`.
pub open spec fn as_vector<T>(p: Point<T>) -> Vector<T> {
    Vector { x: p.x, y: p.y, z: p.z }
}

/// The position with the same coordinates as `v`.
pub open spec fn as_point<T>(v: Vector<T>) -> Point<T> {
    Point { x: v.x, y: v.y, z: v.z }
}

impl<T: Scalar> Point<T> {
    pub fn new(x: T, y: T, z: T) -> (res: Self)
        ensures
            res == (Point { x, y, z }),
    {
        Point { x, y, z }
    }

    /// The origin.
    pub fn zero() -> (res: Self)
        ensures
            T::obeys_from_spec() ==> res == (Point { x: zero::<T>(), y: zero::<T>(), z: zero::<T>() }),
    {
        let v = T::from(0i8);
        Point { x: v, y: v, z: v }
    }

    /// The point with all coordinates one.
    pub fn one() -> (res: Self)
        ensures
            T::obeys_from_spec() ==> res == (Point { x: one::<T>(), y: one::<T>(), z: one::<T>() }),
    {
        let v = T::from(1i8);
        Point { x: v, y: v, z: v }
    }

    /// The direction from `self` to `other`: `other - self`.
    pub fn to(&self, other: &Point<T>) -> (res: Vector<T>)
        requires
            T::obeys_neg_spec(),
            negation_ok(as_vector(*self)),
            sum_ok(as_vector(*other), negation(as_vector(*self))),
        ensures
            T::obeys_add_spec() ==> res == sum_spec(as_vector(*other), negation(as_vector(*self))),
    {
        *other - *self
    }
}

impl<T: Scalar> vstd::std_specs::convert::FromSpecImpl<Point<T>> for Vector<T> {
    open spec fn obeys_from_spec() -> bool {
        true
    }

    open spec fn from_spec(p: Point<T>) -> Self {
        as_vector(p)
    }
}

impl<T: Scalar> From<Point<T>> for Vector<T> {
    fn from(p: Point<T>) -> (res: Self) {
        Vector { x: p.x, y: p.y, z: p.z }
    }
}

impl<T: Scalar> vstd::std_specs::convert::FromSpecImpl<Vector<T>> for Point<T> {
    open spec fn obeys_from_spec() -> bool {
        true
    }

    open spec fn from_spec(v: Vector<T>) -> Self {
        as_point(v)
    }
}

impl<T: Scalar> From<Vector<T>> for Point<T> {
    fn from(v: Vector<T>) -> (res: Self) {
        Point { x: v.x, y: v.y, z: v.z }
    }
}

impl<T: Scalar> vstd::std_specs::convert::FromSpecImpl<Point<T>> for Color<T> {
    open spec fn obeys_from_spec() -> bool {
        true
    }

    open spec fn from_spec(p: Point<T>) -> Self {
        Color { r: p.x, g: p.y, b: p.z }
    }
}

impl<T: Scalar> From<Point<T>> for Color<T> {
    fn from(p: Point<T>) -> (res: Self) {
        Color { r: p.x, g: p.y, b: p.z }
    }
}

impl<T: Scalar> vstd::std_specs::convert::FromSpecImpl<Vector<T>> for Color<T> {
    open spec fn obeys_from_spec() -> bool {
        true
    }

    open spec fn from_spec(v: Vector<T>) -> Self {
        Color { r: v.x, g: v.y, b: v.z }
    }
}

impl<T: Scalar> From<Vector<T>> for Color<T> {
    fn from(v: Vector<T>) -> (res: Self) {
        Color { r: v.x, g: v.y, b: v.z }
    }
}

impl<T: Scalar> vstd::std_specs::ops::AddSpecImpl<Vector<T>> for Point<T> {
    open spec fn obeys_add_spec() -> bool {
        T::obeys_add_spec()
    }

    open spec fn add_req(self, v: Vector<T>) -> bool {
        sum_ok(as_vector(self), v)
    }

    open spec fn add_spec(self, v: Vector<T>) -> Self {
        as_point(sum_spec(as_vector(self), v))
    }
}

impl<T: Scalar> core::ops::Add<Vector<T>> for Point<T> {
    type Output = Self;

    /// The point moved by `v`.
    fn add(self, v: Vector<T>) -> (res: Self) {
        let moved = Vector::from(self) + v;
        Point::from(moved)
    }
}

impl<T: Scalar> vstd::std_specs::ops::AddSpecImpl<Point<T>> for Vector<T> {
    open spec fn obeys_add_spec() -> bool {
        T::obeys_add_spec()
    }

    open spec fn add_req(self, p: Point<T>) -> bool {
        sum_ok(as_vector(p), self)
    }

    open spec fn add_spec(self, p: Point<T>) -> Point<T> {
        as_point(sum_spec(as_vector(p), self))
    }
}

impl<T: Scalar> core::ops::Add<Point<T>> for Vector<T> {
    type Output = Point<T>;

    /// The point `p` moved by `self`.
    fn add(self, p: Point<T>) -> (res: Point<T>) {
        p + self
    }
}

impl<T: Scalar> vstd::std_specs::ops::SubSpecImpl<Vector<T>> for Point<T> {
    open spec fn obeys_sub_spec() -> bool {
        T::obeys_add_spec() && T::obeys_neg_spec()
    }

    open spec fn sub_req(self, v: Vector<T>) -> bool {
        &&& T::obeys_neg_spec()
        &&& negation_ok(v)
        &&& sum_ok(as_vector(self), negation(v))
    }

    open spec fn sub_spec(self, v: Vector<T>) -> Self {
        as_point(sum_spec(as_vector(self), negation(v)))
    }
}

impl<T: Scalar> core::ops::Sub<Vector<T>> for Point<T> {
    type Output = Self;

    /// The point moved by `-v`.
    fn sub(self, v: Vector<T>) -> (res: Self) {
        let negated = v.neg();
        self + negated
    }
}

impl<T: Scalar> vstd::std_specs::ops::SubSpecImpl for Point<T> {
    open spec fn obeys_sub_spec() -> bool {
        T::obeys_add_spec() && T::obeys_neg_spec()
    }

    open spec fn sub_req(self, p: Point<T>) -> bool {
        &&& T::obeys_neg_spec()
        &&& negation_ok(as_vector(p))
        &&& sum_ok(as_vector(self), negation(as_vector(p)))
    }

    open spec fn sub_spec(self, p: Point<T>) -> Vector<T> {
        sum_spec(as_vector(self), negation(as_vector(p)))
    }
}

impl<T: Scalar> core::ops::Sub for Point<T> {
    type Output = Vector<T>;

    /// The direction from `p` to `self`.
    fn sub(self, p: Point<T>) -> (res: Vector<T>) {
        Vector::from(self) - Vector::from(p)
    }
}

} // verus!
