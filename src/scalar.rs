//! The element type of matrices and what the proofs know of its operators.

use vstd::prelude::*;
use vstd::std_specs::ops::{AddSpec, MulSpec, NegSpec, SubSpec, DivSpec};
use vstd::std_specs::convert::FromSpec;
use vstd::std_specs::cmp::PartialEqSpec;

verus! {

/// The operations a matrix entry needs: the four arithmetic operators,
/// negation, equality, and the small constants taken from `i8`.
pub trait Scalar: Copy + core::ops::Add<Output = Self> + core::ops::Sub<Output = Self> + core::ops::Mul<
    Output = Self,
> + core::ops::Div<Output = Self> + core::ops::Neg<Output = Self> + PartialEq + From<i8> {

}

impl<
    T: Copy + core::ops::Add<Output = T> + core::ops::Sub<Output = T> + core::ops::Mul<Output = T>
        + core::ops::Div<Output = T> + core::ops::Neg<Output = T> + PartialEq + From<i8>,
> Scalar for T {

}

/// The scalar's operators compute the specification functions that vstd
/// gives them (true of the primitive integer types).
pub open spec fn exact<T: Scalar>() -> bool {
    &&& T::obeys_add_spec()
    &&& T::obeys_sub_spec()
    &&& T::obeys_mul_spec()
    &&& T::obeys_div_spec()
    &&& T::obeys_neg_spec()
    &&& T::obeys_from_spec()
    &&& T::obeys_eq_spec()
}

/// The scalar zero.
pub open spec fn zero<T: Scalar>() -> T {
    T::from_spec(0i8)
}

/// The scalar one.
pub open spec fn one<T: Scalar>() -> T {
    T::from_spec(1i8)
}

/// Scalar addition commutes.
pub open spec fn add_commutes<T: Scalar>() -> bool {
    forall|x: T, y: T| #[trigger] x.add_spec(y) == y.add_spec(x)
}

/// Adding a scalar's negation gives zero.
pub open spec fn add_inverse<T: Scalar>() -> bool {
    forall|x: T| #[trigger] x.add_spec(x.neg_spec()) == zero::<T>()
}

/// One times one is one, zero absorbs in a product, and zero is neutral in a sum.
pub open spec fn unit_laws<T: Scalar>() -> bool {
    &&& one::<T>().mul_spec(one::<T>()) == one::<T>()
    &&& forall|x: T| #[trigger] zero::<T>().mul_spec(x) == zero::<T>()
    &&& forall|x: T| #[trigger] x.add_spec(zero::<T>()) == x
}

/// The machine integer `i64` meets all three of these laws (its specification
/// functions wrap around).
pub proof fn lemma_i64_laws()
    ensures
        exact::<i64>(),
        add_commutes::<i64>(),
        add_inverse::<i64>(),
        unit_laws::<i64>(),
{
    assert forall|x: i64| #[trigger] x.add_spec(x.neg_spec()) == zero::<i64>() by {
        assert((x + (-x) as i64) as i64 == 0) by (bit_vector);
    }
    assert(zero::<i64>() == 0);
    assert(one::<i64>() == 1);
    assert forall|x: i64| #[trigger] zero::<i64>().mul_spec(x) == zero::<i64>() by {
        assert(0 * x == 0);
    }
}

} // verus!
