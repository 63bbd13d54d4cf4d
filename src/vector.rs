//! Three-component direction vectors.

use vstd::prelude::*;
use vstd::std_specs::ops::{AddSpec, DivSpec, MulSpec, NegSpec, SubSpec};
use vstd::std_specs::convert::FromSpec;
use core::ops::Neg;
use crate::scalar::{Scalar, zero, one};

verus! {

#[derive(Clone, Copy, PartialEq, Debug)]
pub struct Vector<T> {
    pub x: T,
    pub y: T,
    pub z: T,
}

/// `a.x * b.x + a.y * b.y + a.z * b.z`, summed from the left.
pub open spec fn dot_spec<T: Scalar>(a: Vector<T>, b: Vector<T>) -> T {
    a.x.mul_spec(b.x).add_spec(a.y.mul_spec(b.y)).add_spec(a.z.mul_spec(b.z))
}

/// Every step of `dot_spec` is within the scalar's domain.
pub open spec fn dot_ok<T: Scalar>(a: Vector<T>, b: Vector<T>) -> bool {
    &&& T::obeys_mul_spec()
    &&& T::obeys_add_spec()
    &&& a.x.mul_req(b.x)
    &&& a.y.mul_req(b.y)
    &&& a.z.mul_req(b.z)
    &&& a.x.mul_spec(b.x).add_req(a.y.mul_spec(b.y))
    &&& a.x.mul_spec(b.x).add_spec(a.y.mul_spec(b.y)).add_req(a.z.mul_spec(b.z))
}

/// The cross product `a × b`.
pub open spec fn cross_spec<T: Scalar>(a: Vector<T>, b: Vector<T>) -> Vector<T> {
    Vector {
        x: a.y.mul_spec(b.z).sub_spec(a.z.mul_spec(b.y)),
        y: a.z.mul_spec(b.x).sub_spec(a.x.mul_spec(b.z)),
        z: a.x.mul_spec(b.y).sub_spec(a.y.mul_spec(b.x)),
    }
}

/// Every step of `cross_spec` is within the scalar's domain.
pub open spec fn cross_ok<T: Scalar>(a: Vector<T>, b: Vector<T>) -> bool {
    &&& T::obeys_mul_spec()
    &&& T::obeys_sub_spec()
    &&& a.y.mul_req(b.z) && a.z.mul_req(b.y)
    &&& a.z.mul_req(b.x) && a.x.mul_req(b.z)
    &&& a.x.mul_req(b.y) && a.y.mul_req(b.x)
    &&& a.y.mul_spec(b.z).sub_req(a.z.mul_spec(b.y))
    &&& a.z.mul_spec(b.x).sub_req(a.x.mul_spec(b.z))
    &&& a.x.mul_spec(b.y).sub_req(a.y.mul_spec(b.x))
}

/// Component-wise product.
pub open spec fn hadamard_spec<T: Scalar>(a: Vector<T>, b: Vector<T>) -> Vector<T> {
    Vector { x: a.x.mul_spec(b.x), y: a.y.mul_spec(b.y), z: a.z.mul_spec(b.z) }
}

/// Component-wise sum.
pub open spec fn sum_spec<T: Scalar>(a: Vector<T>, b: Vector<T>) -> Vector<T> {
    Vector { x: a.x.add_spec(b.x), y: a.y.add_spec(b.y), z: a.z.add_spec(b.z) }
}

/// Every component-wise sum is within the scalar's domain.
pub open spec fn sum_ok<T: Scalar>(a: Vector<T>, b: Vector<T>) -> bool {
    a.x.add_req(b.x) && a.y.add_req(b.y) && a.z.add_req(b.z)
}

/// Component-wise negation.
pub open spec fn negation<T: Scalar>(a: Vector<T>) -> Vector<T> {
    Vector { x: a.x.neg_spec(), y: a.y.neg_spec(), z: a.z.neg_spec() }
}

/// Every component can be negated.
pub open spec fn negation_ok<T: Scalar>(a: Vector<T>) -> bool {
    a.x.neg_req() && a.y.neg_req() && a.z.neg_req()
}

impl<T: Scalar> Vector<T> {
    pub fn new(x: T, y: T, z: T) -> (res: Self)
        ensures
            res == (Vector { x, y, z }),
    {
        Vector { x, y, z }
    }

    /// All components zero.
    pub fn zero() -> (res: Self)
        ensures
            T::obeys_from_spec() ==> res == (Vector { x: zero::<T>(), y: zero::<T>(), z: zero::<T>() }),
    {
        let v = T::from(0i8);
        Vector { x: v, y: v, z: v }
    }

    /// All components one.
    pub fn one() -> (res: Self)
        ensures
            T::obeys_from_spec() ==> res == (Vector { x: one::<T>(), y: one::<T>(), z: one::<T>() }),
    {
        let v = T::from(1i8);
        Vector { x: v, y: v, z: v }
    }

    /// The dot product of the vector with itself.
    pub fn length_squared(&self) -> (res: T)
        requires
            dot_ok(*self, *self),
        ensures
            res == dot_spec(*self, *self),
    {
        self.dot(self)
    }

    /// The dot product.
    pub fn dot(&self, other: &Self) -> (res: T)
        requires
            dot_ok(*self, *other),
        ensures
            res == dot_spec(*self, *other),
    {
        self.x * other.x + self.y * other.y + self.z * other.z
    }

    /// The cross product; `a.cross(b)` is `-(b.cross(a))`.
    pub fn cross(&self, other: &Self) -> (res: Self)
        requires
            cross_ok(*self, *other),
        ensures
            res == cross_spec(*self, *other),
    {
        let x = self.y * other.z - self.z * other.y;
        let y = self.z * other.x - self.x * other.z;
        let z = self.x * other.y - self.y * other.x;
        Vector { x, y, z }
    }

    /// Component-wise product.
    pub fn hadamard(&self, other: &Self) -> (res: Self)
        requires
            T::obeys_mul_spec(),
            self.x.mul_req(other.x),
            self.y.mul_req(other.y),
            self.z.mul_req(other.z),
        ensures
            res == hadamard_spec(*self, *other),
    {
        let x = self.x * other.x;
        let y = self.y * other.y;
        let z = self.z * other.z;
        Vector { x, y, z }
    }
}

impl<T: Scalar> vstd::std_specs::ops::NegSpecImpl for Vector<T> {
    open spec fn obeys_neg_spec() -> bool {
        T::obeys_neg_spec()
    }

    open spec fn neg_req(self) -> bool {
        negation_ok(self)
    }

    open spec fn neg_spec(self) -> Self {
        negation(self)
    }
}

impl<T: Scalar> core::ops::Neg for Vector<T> {
    type Output = Self;

    /// The opposite direction.
    fn neg(self) -> (res: Self) {
        Vector { x: self.x.neg(), y: self.y.neg(), z: self.z.neg() }
    }
}

impl<T: Scalar> vstd::std_specs::ops::AddSpecImpl for Vector<T> {
    open spec fn obeys_add_spec() -> bool {
        T::obeys_add_spec()
    }

    open spec fn add_req(self, rhs: Self) -> bool {
        sum_ok(self, rhs)
    }

    open spec fn add_spec(self, rhs: Self) -> Self {
        sum_spec(self, rhs)
    }
}

impl<T: Scalar> core::ops::Add for Vector<T> {
    type Output = Self;

    /// Component-wise sum.
    fn add(self, rhs: Self) -> (res: Self) {
        Vector { x: self.x + rhs.x, y: self.y + rhs.y, z: self.z + rhs.z }
    }
}

impl<T: Scalar> vstd::std_specs::ops::SubSpecImpl for Vector<T> {
    open spec fn obeys_sub_spec() -> bool {
        T::obeys_add_spec() && T::obeys_neg_spec()
    }

    open spec fn sub_req(self, rhs: Self) -> bool {
        &&& T::obeys_neg_spec()
        &&& negation_ok(rhs)
        &&& sum_ok(self, negation(rhs))
    }

    open spec fn sub_spec(self, rhs: Self) -> Self {
        sum_spec(self, negation(rhs))
    }
}

impl<T: Scalar> core::ops::Sub for Vector<T> {
    type Output = Self;

    /// `self + (-rhs)`.
    fn sub(self, rhs: Self) -> (res: Self) {
        let negated = rhs.neg();
        self + negated
    }
}

impl<T: Scalar> vstd::std_specs::ops::AddSpecImpl<T> for Vector<T> {
    open spec fn obeys_add_spec() -> bool {
        T::obeys_add_spec()
    }

    open spec fn add_req(self, s: T) -> bool {
        self.x.add_req(s) && self.y.add_req(s) && self.z.add_req(s)
    }

    open spec fn add_spec(self, s: T) -> Self {
        Vector { x: self.x.add_spec(s), y: self.y.add_spec(s), z: self.z.add_spec(s) }
    }
}

impl<T: Scalar> core::ops::Add<T> for Vector<T> {
    type Output = Self;

    /// `s` added to every component.
    fn add(self, s: T) -> (res: Self) {
        Vector { x: self.x + s, y: self.y + s, z: self.z + s }
    }
}

impl<T: Scalar> vstd::std_specs::ops::MulSpecImpl<T> for Vector<T> {
    open spec fn obeys_mul_spec() -> bool {
        T::obeys_mul_spec()
    }

    open spec fn mul_req(self, s: T) -> bool {
        self.x.mul_req(s) && self.y.mul_req(s) && self.z.mul_req(s)
    }

    open spec fn mul_spec(self, s: T) -> Self {
        Vector { x: self.x.mul_spec(s), y: self.y.mul_spec(s), z: self.z.mul_spec(s) }
    }
}

impl<T: Scalar> core::ops::Mul<T> for Vector<T> {
    type Output = Self;

    /// Every component scaled by `s`.
    fn mul(self, s: T) -> (res: Self) {
        Vector { x: self.x * s, y: self.y * s, z: self.z * s }
    }
}

impl<T: Scalar> vstd::std_specs::ops::DivSpecImpl<T> for Vector<T> {
    open spec fn obeys_div_spec() -> bool {
        T::obeys_div_spec()
    }

    open spec fn div_req(self, s: T) -> bool {
        self.x.div_req(s) && self.y.div_req(s) && self.z.div_req(s)
    }

    open spec fn div_spec(self, s: T) -> Self {
        Vector { x: self.x.div_spec(s), y: self.y.div_spec(s), z: self.z.div_spec(s) }
    }
}

impl<T: Scalar> core::ops::Div<T> for Vector<T> {
    type Output = Self;

    /// Every component divided by `s`.
    fn div(self, s: T) -> (res: Self) {
        Vector { x: self.x / s, y: self.y / s, z: self.z / s }
    }
}

} // verus!
