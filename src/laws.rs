//! Algebraic laws of the matrix operations, proved over the views that the
//! operations' contracts use.

use vstd::prelude::*;
use vstd::std_specs::ops::{AddSpec, MulSpec};
use crate::scalar::{Scalar, zero, one, add_commutes, add_inverse, unit_laws};
use crate::matrix::{Matrix, constant_view, identity_view, sum_view, neg_view, transpose_view};
use crate::determinant::{det_view, laplace, cofactor_view, minor_view};

verus! {

/// `A + B == B + A` for matrices of one shape, wherever scalar addition commutes.
pub proof fn lemma_sum_commutes<T: Scalar, const R: usize, const C: usize>(
    a: Matrix<T, R, C>,
    b: Matrix<T, R, C>,
)
    requires
        add_commutes::<T>(),
    ensures
        sum_view(a@, b@) == sum_view(b@, a@),
{
    assert(sum_view(a@, b@) =~~= sum_view(b@, a@));
}

/// `A + (-A)` is the zero matrix, wherever a scalar plus its negation is zero.
pub proof fn lemma_sum_with_negation<T: Scalar, const R: usize, const C: usize>(a: Matrix<T, R, C>)
    requires
        add_inverse::<T>(),
    ensures
        sum_view(a@, neg_view(a@)) == constant_view(R as nat, C as nat, zero::<T>()),
{
    assert(sum_view(a@, neg_view(a@)) =~~= constant_view(R as nat, C as nat, zero::<T>()));
}

/// Transposing twice gives the matrix back.
pub proof fn lemma_transpose_twice<T, const R: usize, const C: usize>(a: Matrix<T, R, C>)
    ensures
        transpose_view(transpose_view(a@, C as nat), R as nat) == a@,
{
    assert(transpose_view(transpose_view(a@, C as nat), R as nat) =~~= a@);
}

/// The determinant of the identity of any order is one.
pub proof fn lemma_det_identity<T: Scalar>(n: nat)
    requires
        n >= 1,
        unit_laws::<T>(),
    ensures
        det_view(identity_view::<T>(n)) == one::<T>(),
    decreases n,
{
    let m = identity_view::<T>(n);
    if n >= 2 {
        assert(minor_view(m, 0, 0) =~~= identity_view::<T>((n - 1) as nat));
        lemma_det_identity::<T>((n - 1) as nat);
        assert(cofactor_view(m, 0, 0) == one::<T>());
        lemma_identity_expansion::<T>(n, n as int);
    }
}

/// Every partial expansion of the identity along its first row is one.
proof fn lemma_identity_expansion<T: Scalar>(n: nat, k: int)
    requires
        n >= 2,
        1 <= k <= n,
        unit_laws::<T>(),
        cofactor_view(identity_view::<T>(n), 0, 0) == one::<T>(),
    ensures
        laplace(identity_view::<T>(n), k) == one::<T>(),
    decreases k,
{
    let m = identity_view::<T>(n);
    if k > 1 {
        lemma_identity_expansion::<T>(n, k - 1);
        assert(m[0][k - 1] == zero::<T>());
        assert(zero::<T>().mul_spec(cofactor_view(m, 0, k - 1)) == zero::<T>());
    }
}

/// The determinant of the zero matrix of any order is zero.
pub proof fn lemma_det_zero<T: Scalar>(n: nat)
    requires
        n >= 1,
        unit_laws::<T>(),
    ensures
        det_view(constant_view(n, n, zero::<T>())) == zero::<T>(),
{
    if n >= 2 {
        lemma_zero_expansion::<T>(n, n as int);
    }
}

/// Every partial expansion of the zero matrix along its first row is zero.
proof fn lemma_zero_expansion<T: Scalar>(n: nat, k: int)
    requires
        n >= 2,
        1 <= k <= n,
        unit_laws::<T>(),
    ensures
        laplace(constant_view(n, n, zero::<T>()), k) == zero::<T>(),
    decreases k,
{
    let m = constant_view(n, n, zero::<T>());
    assert(zero::<T>().mul_spec(cofactor_view(m, 0, k - 1)) == zero::<T>());
    if k > 1 {
        lemma_zero_expansion::<T>(n, k - 1);
    }
}

} // verus!
