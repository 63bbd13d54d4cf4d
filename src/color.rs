//! Red, green and blue intensities, with component-wise arithmetic.

use vstd::prelude::*;
use vstd::std_specs::ops::{AddSpec, MulSpec, SubSpec};
use vstd::std_specs::convert::FromSpec;
use crate::scalar::{Scalar, zero, one};

verus! {

/// A color as three channel intensities; zero is none, one is full.
#[derive(Clone, Copy, PartialEq, Debug)]
pub struct Color<T> {
    pub r: T,
    pub g: T,
    pub b: T,
}

/// The color with all three channels at `v`.
pub open spec fn gray_spec<T>(v: T) -> Color<T> {
    Color { r: v, g: v, b: v }
}

impl<T: Scalar> Color<T> {
    pub fn new(r: T, g: T, b: T) -> (res: Self)
        ensures
            res == (Color { r, g, b }),
    {
        Color { r, g, b }
    }

    /// All three channels at `value`.
    pub fn gray(value: T) -> (res: Self)
        ensures
            res == gray_spec(value),
    {
        Color { r: value, g: value, b: value }
    }

    /// All channels zero.
    pub fn zero() -> (res: Self)
        ensures
            T::obeys_from_spec() ==> res == gray_spec(zero::<T>()),
    {
        Self::gray(T::from(0i8))
    }

    /// All channels one.
    pub fn one() -> (res: Self)
        ensures
            T::obeys_from_spec() ==> res == gray_spec(one::<T>()),
    {
        Self::gray(T::from(1i8))
    }

    /// Black: all channels zero.
    pub fn black() -> (res: Self)
        ensures
            T::obeys_from_spec() ==> res == gray_spec(zero::<T>()),
    {
        Self::zero()
    }

    /// White: all channels one.
    pub fn white() -> (res: Self)
        ensures
            T::obeys_from_spec() ==> res == gray_spec(one::<T>()),
    {
        Self::one()
    }
}

impl<T: Scalar> Default for Color<T> {
    /// Black.
    fn default() -> (res: Self)
        ensures
            T::obeys_from_spec() ==> res == gray_spec(zero::<T>()),
    {
        Self::black()
    }
}

impl<T: Scalar> vstd::std_specs::ops::AddSpecImpl for Color<T> {
    open spec fn obeys_add_spec() -> bool {
        T::obeys_add_spec()
    }

    open spec fn add_req(self, rhs: Self) -> bool {
        self.r.add_req(rhs.r) && self.g.add_req(rhs.g) && self.b.add_req(rhs.b)
    }

    open spec fn add_spec(self, rhs: Self) -> Self {
        Color { r: self.r.add_spec(rhs.r), g: self.g.add_spec(rhs.g), b: self.b.add_spec(rhs.b) }
    }
}

impl<T: Scalar> core::ops::Add for Color<T> {
    type Output = Self;

    /// Channel-wise sum.
    fn add(self, rhs: Self) -> (res: Self) {
        Color { r: self.r + rhs.r, g: self.g + rhs.g, b: self.b + rhs.b }
    }
}

impl<T: Scalar> vstd::std_specs::ops::SubSpecImpl for Color<T> {
    open spec fn obeys_sub_spec() -> bool {
        T::obeys_sub_spec()
    }

    open spec fn sub_req(self, rhs: Self) -> bool {
        self.r.sub_req(rhs.r) && self.g.sub_req(rhs.g) && self.b.sub_req(rhs.b)
    }

    open spec fn sub_spec(self, rhs: Self) -> Self {
        Color { r: self.r.sub_spec(rhs.r), g: self.g.sub_spec(rhs.g), b: self.b.sub_spec(rhs.b) }
    }
}

impl<T: Scalar> core::ops::Sub for Color<T> {
    type Output = Self;

    /// Channel-wise difference.
    fn sub(self, rhs: Self) -> (res: Self) {
        Color { r: self.r - rhs.r, g: self.g - rhs.g, b: self.b - rhs.b }
    }
}

impl<T: Scalar> vstd::std_specs::ops::MulSpecImpl for Color<T> {
    open spec fn obeys_mul_spec() -> bool {
        T::obeys_mul_spec()
    }

    open spec fn mul_req(self, rhs: Self) -> bool {
        self.r.mul_req(rhs.r) && self.g.mul_req(rhs.g) && self.b.mul_req(rhs.b)
    }

    open spec fn mul_spec(self, rhs: Self) -> Self {
        Color { r: self.r.mul_spec(rhs.r), g: self.g.mul_spec(rhs.g), b: self.b.mul_spec(rhs.b) }
    }
}

impl<T: Scalar> core::ops::Mul for Color<T> {
    type Output = Self;

    /// Channel-wise (Hadamard) product.
    fn mul(self, rhs: Self) -> (res: Self) {
        Color { r: self.r * rhs.r, g: self.g * rhs.g, b: self.b * rhs.b }
    }
}

impl<T: Scalar> vstd::std_specs::ops::MulSpecImpl<T> for Color<T> {
    open spec fn obeys_mul_spec() -> bool {
        T::obeys_mul_spec()
    }

    open spec fn mul_req(self, s: T) -> bool {
        self.r.mul_req(s) && self.g.mul_req(s) && self.b.mul_req(s)
    }

    open spec fn mul_spec(self, s: T) -> Self {
        Color { r: self.r.mul_spec(s), g: self.g.mul_spec(s), b: self.b.mul_spec(s) }
    }
}

impl<T: Scalar> core::ops::Mul<T> for Color<T> {
    type Output = Self;

    /// Every channel scaled by `s`.
    fn mul(self, s: T) -> (res: Self) {
        Color { r: self.r * s, g: self.g * s, b: self.b * s }
    }
}

} // verus!
