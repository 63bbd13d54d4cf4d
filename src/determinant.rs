//! Minors, cofactors, the determinant by Laplace expansion along the first
//! row, and the inverse as the adjugate divided by the determinant.

use vstd::prelude::*;
use vstd::std_specs::ops::{AddSpec, DivSpec, MulSpec, NegSpec};
use vstd::std_specs::cmp::PartialEqSpec;
use core::ops::Neg;
use crate::scalar::{Scalar, exact, zero, one};
use crate::matrix::{Matrix, transpose_view};

verus! {

/// Index `i` of a minor taken at `k`, as an index of the full matrix.
pub open spec fn skip(i: int, k: int) -> int {
    if i < k {
        i
    } else {
        i + 1
    }
}

/// The grid `m` without row `r` and column `c`.
pub open spec fn minor_view<T>(m: Seq<Seq<T>>, r: int, c: int) -> Seq<Seq<T>> {
    Seq::new(
        (m.len() - 1) as nat,
        |i: int| Seq::new((m.len() - 1) as nat, |j: int| m[skip(i, r)][skip(j, c)]),
    )
}

/// `x` for an even `p`, `-x` for an odd one.
pub open spec fn signed<T: Scalar>(p: int, x: T) -> T {
    if p % 2 == 0 {
        x
    } else {
        x.neg_spec()
    }
}

/// The determinant: the single entry of an order-1 grid, else the Laplace
/// expansion along the first row.
pub open spec fn det_view<T: Scalar>(m: Seq<Seq<T>>) -> T
    decreases m.len(), m.len() + 1,
{
    if m.len() <= 1 {
        m[0][0]
    } else {
        laplace(m, m.len() as int)
    }
}

/// `m[0][0] * cofactor(0, 0) + ... + m[0][k-1] * cofactor(0, k-1)`, summed from
/// the left.
pub open spec fn laplace<T: Scalar>(m: Seq<Seq<T>>, k: int) -> T
    decreases m.len(), k,
{
    if m.len() <= 1 || k < 1 {
        m[0][0]
    } else if k == 1 {
        m[0][0].mul_spec(cofactor_view(m, 0, 0))
    } else {
        laplace(m, k - 1).add_spec(m[0][k - 1].mul_spec(cofactor_view(m, 0, k - 1)))
    }
}

/// The signed determinant of the minor at `(r, c)`; one for an order-1 grid.
pub open spec fn cofactor_view<T: Scalar>(m: Seq<Seq<T>>, r: int, c: int) -> T
    decreases m.len(), 0int,
{
    if m.len() <= 1 {
        one::<T>()
    } else {
        signed(r + c, det_view(minor_view(m, r, c)))
    }
}

/// Every step of `det_view` is within the scalar's domain.
pub open spec fn det_ok<T: Scalar>(m: Seq<Seq<T>>) -> bool
    decreases m.len(), m.len() + 1,
{
    m.len() <= 1 || laplace_ok(m, m.len() as int)
}

/// Every step of `laplace` is within the scalar's domain.
pub open spec fn laplace_ok<T: Scalar>(m: Seq<Seq<T>>, k: int) -> bool
    decreases m.len(), k,
{
    if m.len() <= 1 || k < 1 {
        true
    } else if k == 1 {
        cofactor_ok(m, 0, 0) && m[0][0].mul_req(cofactor_view(m, 0, 0))
    } else {
        &&& laplace_ok(m, k - 1)
        &&& cofactor_ok(m, 0, k - 1)
        &&& m[0][k - 1].mul_req(cofactor_view(m, 0, k - 1))
        &&& laplace(m, k - 1).add_req(m[0][k - 1].mul_spec(cofactor_view(m, 0, k - 1)))
    }
}

/// Every step of `cofactor_view` is within the scalar's domain.
pub open spec fn cofactor_ok<T: Scalar>(m: Seq<Seq<T>>, r: int, c: int) -> bool
    decreases m.len(), 0int,
{
    m.len() <= 1 || {
        &&& det_ok(minor_view(m, r, c))
        &&& (r + c) % 2 != 0 ==> det_view(minor_view(m, r, c)).neg_req()
    }
}

/// The inverse of a grid of order `n`: the transposed matrix of cofactors,
/// each divided by the determinant.
pub open spec fn inverse_view<T: Scalar>(m: Seq<Seq<T>>) -> Seq<Seq<T>> {
    Seq::new(m.len(), |r: int| Seq::new(m.len(), |c: int| cofactor_view(m, c, r).div_spec(det_view(m))))
}

/// The determinant is exactly zero, by the scalar's equality.
pub open spec fn singular<T: Scalar>(m: Seq<Seq<T>>) -> bool {
    det_view(m).eq_spec(&zero::<T>())
}

/// Every step of `inverse_view` is within the scalar's domain.
pub open spec fn inverse_ok<T: Scalar>(m: Seq<Seq<T>>) -> bool {
    &&& exact::<T>()
    &&& det_ok(m)
    &&& !singular(m) ==> forall|r: int, c: int| 0 <= r < m.len() && 0 <= c < m.len() ==> {
        &&& #[trigger] cofactor_ok(m, r, c)
        &&& cofactor_view(m, r, c).div_req(det_view(m))
    }
}

impl<T: Copy, const D: usize> Matrix<T, D, D> {
    /// The matrix without row `r` and column `c`.
    fn minor<const E: usize>(&self, r: usize, c: usize) -> (res: Matrix<T, E, E>)
        requires
            E + 1 == D,
            r < D,
            c < D,
        ensures
            res@ == minor_view(self@, r as int, c as int),
    {
        let mut res = Matrix { data: [[self.data[0][0]; E]; E] };
        let mut i: usize = 0;
        while i < E
            invariant
                E + 1 == D,
                r < D,
                c < D,
                i <= E,
                forall|a: int, b: int| 0 <= a < i && 0 <= b < E ==>
                    #[trigger] res@[a][b] == self@[skip(a, r as int)][skip(b, c as int)],
            decreases E - i,
        {
            let mut row = res.data[i];
            let from_row: usize = if i < r { i } else { i + 1 };
            let mut j: usize = 0;
            while j < E
                invariant
                    E + 1 == D,
                    c < D,
                    i < E,
                    j <= E,
                    from_row == skip(i as int, r as int),
                    forall|b: int| 0 <= b < j ==> #[trigger] row@[b] == self@[from_row as int][skip(b, c as int)],
                decreases E - j,
            {
                let from_col: usize = if j < c { j } else { j + 1 };
                row[j] = self.data[from_row][from_col];
                j = j + 1;
            }
            let ghost prev = res;
            res.data[i] = row;
            assert(forall|a: int| 0 <= a < i ==> #[trigger] res@[a] == prev@[a]);
            assert(res@[i as int] == row@);
            i = i + 1;
        }
        assert(res@ =~~= minor_view(self@, r as int, c as int));
        res
    }
}

impl<T: Scalar> Matrix<T, 1, 1> {
    /// The determinant of an order-1 matrix: its single entry.
    pub fn det(&self) -> (res: T)
        ensures
            res == det_view(self@),
    {
        self.data[0][0]
    }

    /// The reciprocal of the single entry, or `None` where that entry is zero.
    pub fn inverse(&self) -> (res: Option<Self>)
        requires
            inverse_ok(self@),
        ensures
            res is None <==> singular(self@),
            res matches Some(m) ==> m@ == inverse_view(self@),
    {
        let det = self.det();
        if det == T::from(0i8) {
            return None;
        }
        let cofactors = Self::one();
        assert(cofactor_ok(self@, 0, 0));
        assert(cofactors@[0][0] == cofactor_view(self@, 0, 0));
        assert(cofactors@ =~~= transpose_view(cofactors@, 1));
        let res = cofactors / det;
        assert(res@ =~~= inverse_view(self@));
        Some(res)
    }
}

impl<T: Scalar> Matrix<T, 2, 2> {
    /// The matrix without row `r` and column `c`.
    pub fn delete(&self, r: usize, c: usize) -> (res: Matrix<T, 1, 1>)
        requires
            r < 2,
            c < 2,
        ensures
            res@ == minor_view(self@, r as int, c as int),
    {
        self.minor(r, c)
    }

    /// The determinant of the minor at `(r, c)`, negated where `r + c` is odd.
    pub fn cofactor(&self, r: usize, c: usize) -> (res: T)
        requires
            r < 2,
            c < 2,
            exact::<T>(),
            cofactor_ok(self@, r as int, c as int),
        ensures
            res == cofactor_view(self@, r as int, c as int),
    {
        let d = self.delete(r, c).det();
        if (r + c) % 2 == 0 {
            d
        } else {
            d.neg()
        }
    }

    /// The determinant, by Laplace expansion along the first row.
    pub fn det(&self) -> (res: T)
        requires
            exact::<T>(),
            det_ok(self@),
        ensures
            res == det_view(self@),
    {
        proof {
            reveal_with_fuel(laplace, 2);
            reveal_with_fuel(laplace_ok, 2);
            assert(self@.len() == 2);
            assert(laplace_ok(self@, 2));
            assert(laplace_ok(self@, 1));
        }
        let t0 = self.data[0][0] * self.cofactor(0, 0);
        let t1 = self.data[0][1] * self.cofactor(0, 1);
        t0 + t1
    }

    /// The inverse: the transposed matrix of cofactors divided by the
    /// determinant, or `None` where the determinant is exactly zero.
    pub fn inverse(&self) -> (res: Option<Self>)
        requires
            inverse_ok(self@),
        ensures
            res is None <==> singular(self@),
            res matches Some(m) ==> m@ == inverse_view(self@),
    {
        let det = self.det();
        if det == T::from(0i8) {
            return None;
        }
        let mut cofactors = Self::zero();
        let mut r: usize = 0;
        while r < 2
            invariant
                r <= 2,
                inverse_ok(self@),
                !singular(self@),
                forall|i: int, j: int| 0 <= i < r && 0 <= j < 2 ==>
                    #[trigger] cofactors@[i][j] == cofactor_view(self@, i, j),
            decreases 2 - r,
        {
            let mut c: usize = 0;
            while c < 2
                invariant
                    r < 2,
                    c <= 2,
                    inverse_ok(self@),
                    !singular(self@),
                    forall|i: int, j: int| 0 <= i < r && 0 <= j < 2 ==>
                        #[trigger] cofactors@[i][j] == cofactor_view(self@, i, j),
                    forall|j: int| 0 <= j < c ==> #[trigger] cofactors@[r as int][j] == cofactor_view(self@, r as int, j),
                decreases 2 - c,
            {
                assert(cofactor_ok(self@, r as int, c as int));
                let v = self.cofactor(r, c);
                cofactors.set(r, c, v);
                c = c + 1;
            }
            r = r + 1;
        }
        let adjugate = cofactors.transposed();
        assert(forall|i: int, j: int| 0 <= i < 2 && 0 <= j < 2 ==>
            #[trigger] adjugate@[i][j] == cofactor_view(self@, j, i));
        assert forall|i: int, j: int| 0 <= i < 2 && 0 <= j < 2 implies
            #[trigger] adjugate@[i][j].div_req(det) by {
            assert(cofactor_ok(self@, j, i));
        }
        let res = adjugate / det;
        assert(res@ =~~= inverse_view(self@));
        Some(res)
    }
}

impl<T: Scalar> Matrix<T, 3, 3> {
    /// The matrix without row `r` and column `c`.
    pub fn delete(&self, r: usize, c: usize) -> (res: Matrix<T, 2, 2>)
        requires
            r < 3,
            c < 3,
        ensures
            res@ == minor_view(self@, r as int, c as int),
    {
        self.minor(r, c)
    }

    /// The determinant of the minor at `(r, c)`, negated where `r + c` is odd.
    pub fn cofactor(&self, r: usize, c: usize) -> (res: T)
        requires
            r < 3,
            c < 3,
            exact::<T>(),
            cofactor_ok(self@, r as int, c as int),
        ensures
            res == cofactor_view(self@, r as int, c as int),
    {
        let d = self.delete(r, c).det();
        if (r + c) % 2 == 0 {
            d
        } else {
            d.neg()
        }
    }

    /// The determinant, by Laplace expansion along the first row.
    pub fn det(&self) -> (res: T)
        requires
            exact::<T>(),
            det_ok(self@),
        ensures
            res == det_view(self@),
    {
        proof {
            reveal_with_fuel(laplace, 3);
            reveal_with_fuel(laplace_ok, 3);
            assert(self@.len() == 3);
            assert(laplace_ok(self@, 3));
            assert(laplace_ok(self@, 2));
            assert(laplace_ok(self@, 1));
        }
        let t0 = self.data[0][0] * self.cofactor(0, 0);
        let t1 = self.data[0][1] * self.cofactor(0, 1);
        let t2 = self.data[0][2] * self.cofactor(0, 2);
        t0 + t1 + t2
    }

    /// The inverse: the transposed matrix of cofactors divided by the
    /// determinant, or `None` where the determinant is exactly zero.
    pub fn inverse(&self) -> (res: Option<Self>)
        requires
            inverse_ok(self@),
        ensures
            res is None <==> singular(self@),
            res matches Some(m) ==> m@ == inverse_view(self@),
    {
        let det = self.det();
        if det == T::from(0i8) {
            return None;
        }
        let mut cofactors = Self::zero();
        let mut r: usize = 0;
        while r < 3
            invariant
                r <= 3,
                inverse_ok(self@),
                !singular(self@),
                forall|i: int, j: int| 0 <= i < r && 0 <= j < 3 ==>
                    #[trigger] cofactors@[i][j] == cofactor_view(self@, i, j),
            decreases 3 - r,
        {
            let mut c: usize = 0;
            while c < 3
                invariant
                    r < 3,
                    c <= 3,
                    inverse_ok(self@),
                    !singular(self@),
                    forall|i: int, j: int| 0 <= i < r && 0 <= j < 3 ==>
                        #[trigger] cofactors@[i][j] == cofactor_view(self@, i, j),
                    forall|j: int| 0 <= j < c ==> #[trigger] cofactors@[r as int][j] == cofactor_view(self@, r as int, j),
                decreases 3 - c,
            {
                assert(cofactor_ok(self@, r as int, c as int));
                let v = self.cofactor(r, c);
                cofactors.set(r, c, v);
                c = c + 1;
            }
            r = r + 1;
        }
        let adjugate = cofactors.transposed();
        assert(forall|i: int, j: int| 0 <= i < 3 && 0 <= j < 3 ==>
            #[trigger] adjugate@[i][j] == cofactor_view(self@, j, i));
        assert forall|i: int, j: int| 0 <= i < 3 && 0 <= j < 3 implies
            #[trigger] adjugate@[i][j].div_req(det) by {
            assert(cofactor_ok(self@, j, i));
        }
        let res = adjugate / det;
        assert(res@ =~~= inverse_view(self@));
        Some(res)
    }
}

impl<T: Scalar> Matrix<T, 4, 4> {
    /// The matrix without row `r` and column `c`.
    pub fn delete(&self, r: usize, c: usize) -> (res: Matrix<T, 3, 3>)
        requires
            r < 4,
            c < 4,
        ensures
            res@ == minor_view(self@, r as int, c as int),
    {
        self.minor(r, c)
    }

    /// The determinant of the minor at `(r, c)`, negated where `r + c` is odd.
    pub fn cofactor(&self, r: usize, c: usize) -> (res: T)
        requires
            r < 4,
            c < 4,
            exact::<T>(),
            cofactor_ok(self@, r as int, c as int),
        ensures
            res == cofactor_view(self@, r as int, c as int),
    {
        let d = self.delete(r, c).det();
        if (r + c) % 2 == 0 {
            d
        } else {
            d.neg()
        }
    }

    /// The determinant, by Laplace expansion along the first row.
    pub fn det(&self) -> (res: T)
        requires
            exact::<T>(),
            det_ok(self@),
        ensures
            res == det_view(self@),
    {
        proof {
            reveal_with_fuel(laplace, 4);
            reveal_with_fuel(laplace_ok, 4);
            assert(self@.len() == 4);
            assert(laplace_ok(self@, 4));
            assert(laplace_ok(self@, 3));
            assert(laplace_ok(self@, 2));
            assert(laplace_ok(self@, 1));
        }
        let t0 = self.data[0][0] * self.cofactor(0, 0);
        let t1 = self.data[0][1] * self.cofactor(0, 1);
        let t2 = self.data[0][2] * self.cofactor(0, 2);
        let t3 = self.data[0][3] * self.cofactor(0, 3);
        t0 + t1 + t2 + t3
    }

    /// The inverse: the transposed matrix of cofactors divided by the
    /// determinant, or `None` where the determinant is exactly zero.
    pub fn inverse(&self) -> (res: Option<Self>)
        requires
            inverse_ok(self@),
        ensures
            res is None <==> singular(self@),
            res matches Some(m) ==> m@ == inverse_view(self@),
    {
        let det = self.det();
        if det == T::from(0i8) {
            return None;
        }
        let mut cofactors = Self::zero();
        let mut r: usize = 0;
        while r < 4
            invariant
                r <= 4,
                inverse_ok(self@),
                !singular(self@),
                forall|i: int, j: int| 0 <= i < r && 0 <= j < 4 ==>
                    #[trigger] cofactors@[i][j] == cofactor_view(self@, i, j),
            decreases 4 - r,
        {
            let mut c: usize = 0;
            while c < 4
                invariant
                    r < 4,
                    c <= 4,
                    inverse_ok(self@),
                    !singular(self@),
                    forall|i: int, j: int| 0 <= i < r && 0 <= j < 4 ==>
                        #[trigger] cofactors@[i][j] == cofactor_view(self@, i, j),
                    forall|j: int| 0 <= j < c ==> #[trigger] cofactors@[r as int][j] == cofactor_view(self@, r as int, j),
                decreases 4 - c,
            {
                assert(cofactor_ok(self@, r as int, c as int));
                let v = self.cofactor(r, c);
                cofactors.set(r, c, v);
                c = c + 1;
            }
            r = r + 1;
        }
        let adjugate = cofactors.transposed();
        assert(forall|i: int, j: int| 0 <= i < 4 && 0 <= j < 4 ==>
            #[trigger] adjugate@[i][j] == cofactor_view(self@, j, i));
        assert forall|i: int, j: int| 0 <= i < 4 && 0 <= j < 4 implies
            #[trigger] adjugate@[i][j].div_req(det) by {
            assert(cofactor_ok(self@, j, i));
        }
        let res = adjugate / det;
        assert(res@ =~~= inverse_view(self@));
        Some(res)
    }
}

} // verus!
