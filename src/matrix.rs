//! Fixed-size matrices stored row-major, with entry-wise algebra,
//! transposition and the matrix product.

use vstd::prelude::*;
use vstd::std_specs::ops::{AddSpec, DivSpec, MulSpec, NegSpec, SubSpec};
use vstd::std_specs::convert::FromSpec;
use vstd::std_specs::iter::IteratorSpec;
use core::ops::Neg;
use crate::scalar::{Scalar, exact, zero, one};

verus! {

/// An `R` by `C` grid of scalars, row-major: `data[r][c]` is the entry in
/// row `r` and column `c`.
#[derive(Clone, Copy, PartialEq, Debug)]
pub struct Matrix<T, const R: usize, const C: usize> {
    pub data: [[T; C]; R],
}

pub type Matrix1<T> = Matrix<T, 1, 1>;

pub type Matrix2<T> = Matrix<T, 2, 2>;

pub type Matrix3<T> = Matrix<T, 3, 3>;

pub type Matrix4<T> = Matrix<T, 4, 4>;

impl<T, const R: usize, const C: usize> View for Matrix<T, R, C> {
    type V = Seq<Seq<T>>;

    /// The rows, each as the sequence of its entries.
    open spec fn view(&self) -> Seq<Seq<T>> {
        Seq::new(R as nat, |r: int| self.data@[r]@)
    }
}

/// The matrix whose view is `v`.
pub open spec fn from_view<T, const R: usize, const C: usize>(v: Seq<Seq<T>>) -> Matrix<T, R, C> {
    choose|m: Matrix<T, R, C>| m@ == v
}

/// A matrix is determined by its view.
pub proof fn lemma_view_determines<T, const R: usize, const C: usize>(a: Matrix<T, R, C>, b: Matrix<T, R, C>)
    requires
        a@ == b@,
    ensures
        a == b,
{
    assert forall|i: int| 0 <= i < R implies a.data[i] == b.data[i] by {
        assert(a@[i] == b@[i]);
        assert(a.data[i] =~= b.data[i]);
    }
    assert(a.data =~= b.data);
}

/// `from_view` gives back the matrix whose view it is handed.
pub proof fn lemma_from_view<T, const R: usize, const C: usize>(m: Matrix<T, R, C>)
    ensures
        from_view::<T, R, C>(m@) == m,
{
    let c = from_view::<T, R, C>(m@);
    assert(c@ == m@);
    lemma_view_determines(c, m);
}

/// The grid of the given shape with every entry `v`.
pub open spec fn constant_view<T>(rows: nat, cols: nat, v: T) -> Seq<Seq<T>> {
    Seq::new(rows, |r: int| Seq::new(cols, |c: int| v))
}

/// The square grid with `one` on the diagonal and `zero` elsewhere.
pub open spec fn identity_view<T: Scalar>(n: nat) -> Seq<Seq<T>> {
    Seq::new(n, |r: int| Seq::new(n, |c: int| if r == c { one::<T>() } else { zero::<T>() }))
}

/// Entry-wise sum.
pub open spec fn sum_view<T: Scalar>(a: Seq<Seq<T>>, b: Seq<Seq<T>>) -> Seq<Seq<T>> {
    Seq::new(a.len(), |r: int| Seq::new(a[r].len(), |c: int| a[r][c].add_spec(b[r][c])))
}

/// Entry-wise negation.
pub open spec fn neg_view<T: Scalar>(a: Seq<Seq<T>>) -> Seq<Seq<T>> {
    Seq::new(a.len(), |r: int| Seq::new(a[r].len(), |c: int| a[r][c].neg_spec()))
}

/// Every entry divided by `s`.
pub open spec fn quotient_view<T: Scalar>(a: Seq<Seq<T>>, s: T) -> Seq<Seq<T>> {
    Seq::new(a.len(), |r: int| Seq::new(a[r].len(), |c: int| a[r][c].div_spec(s)))
}

/// The transpose of a grid with `cols` columns: entry `(r, c)` is `a[c][r]`.
pub open spec fn transpose_view<T>(a: Seq<Seq<T>>, cols: nat) -> Seq<Seq<T>> {
    Seq::new(cols, |r: int| Seq::new(a.len(), |c: int| a[c][r]))
}

/// `zero + a[r][0] * b[0][c] + ... + a[r][k-1] * b[k-1][c]`, summed from the left.
pub open spec fn dot<T: Scalar>(a: Seq<Seq<T>>, b: Seq<Seq<T>>, r: int, c: int, k: int) -> T
    decreases k,
{
    if k <= 0 {
        zero::<T>()
    } else {
        dot(a, b, r, c, k - 1).add_spec(a[r][k - 1].mul_spec(b[k - 1][c]))
    }
}

/// Every step of `dot` is within the scalar's domain.
pub open spec fn dot_ok<T: Scalar>(a: Seq<Seq<T>>, b: Seq<Seq<T>>, r: int, c: int, k: int) -> bool
    decreases k,
{
    k <= 0 || {
        &&& dot_ok(a, b, r, c, k - 1)
        &&& a[r][k - 1].mul_req(b[k - 1][c])
        &&& dot(a, b, r, c, k - 1).add_req(a[r][k - 1].mul_spec(b[k - 1][c]))
    }
}

/// The matrix product of `a` with `b`, where `b` has `cols` columns.
pub open spec fn product_view<T: Scalar>(a: Seq<Seq<T>>, b: Seq<Seq<T>>, cols: nat) -> Seq<Seq<T>> {
    Seq::new(a.len(), |r: int| Seq::new(cols, |c: int| dot(a, b, r, c, b.len() as int)))
}

/// The entries in row-major order.
pub open spec fn flatten_view<T>(a: Seq<Seq<T>>) -> Seq<T>
    decreases a.len(),
{
    if a.len() == 0 {
        Seq::empty()
    } else {
        flatten_view(a.drop_last()) + a.last()
    }
}

/// `zero + a[r][0] + ... + a[r][k-1]`, summed from the left.
pub open spec fn row_sum<T: Scalar>(a: Seq<Seq<T>>, r: int, k: int) -> T
    decreases k,
{
    if k <= 0 {
        zero::<T>()
    } else {
        row_sum(a, r, k - 1).add_spec(a[r][k - 1])
    }
}

/// Every step of `row_sum` is within the scalar's domain.
pub open spec fn row_sum_ok<T: Scalar>(a: Seq<Seq<T>>, r: int, k: int) -> bool
    decreases k,
{
    k <= 0 || (row_sum_ok(a, r, k - 1) && row_sum(a, r, k - 1).add_req(a[r][k - 1]))
}

/// `zero + a[0][c] + ... + a[k-1][c]`, summed from the top.
pub open spec fn col_sum<T: Scalar>(a: Seq<Seq<T>>, c: int, k: int) -> T
    decreases k,
{
    if k <= 0 {
        zero::<T>()
    } else {
        col_sum(a, c, k - 1).add_spec(a[k - 1][c])
    }
}

/// Every step of `col_sum` is within the scalar's domain.
pub open spec fn col_sum_ok<T: Scalar>(a: Seq<Seq<T>>, c: int, k: int) -> bool
    decreases k,
{
    k <= 0 || (col_sum_ok(a, c, k - 1) && col_sum(a, c, k - 1).add_req(a[k - 1][c]))
}

impl<T: Copy, const R: usize, const C: usize> Matrix<T, R, C> {
    /// Wraps a grid as it stands.
    pub fn new(data: [[T; C]; R]) -> (res: Self)
        ensures
            res.data == data,
    {
        Matrix { data }
    }

    /// The matrix with every entry `v`.
    pub fn filled(v: T) -> (res: Self)
        ensures
            res@ == constant_view(R as nat, C as nat, v),
    {
        let res = Matrix { data: [[v; C]; R] };
        assert(res@ =~~= constant_view(R as nat, C as nat, v));
        res
    }

    /// Number of rows and number of columns.
    pub fn dim(&self) -> (res: (usize, usize))
        ensures
            res == (R, C),
    {
        (R, C)
    }

    /// Number of entries.
    pub fn len(&self) -> (res: usize)
        requires
            R * C <= usize::MAX,
        ensures
            res == R * C,
    {
        R * C
    }

    /// The entry in row `r` and column `c`.
    pub fn get(&self, r: usize, c: usize) -> (res: T)
        requires
            r < R,
            c < C,
        ensures
            res == self@[r as int][c as int],
    {
        self.data[r][c]
    }

    /// Replaces the entry in row `r` and column `c` with `v`.
    pub fn set(&mut self, r: usize, c: usize, v: T)
        requires
            r < R,
            c < C,
        ensures
            final(self)@ == old(self)@.update(r as int, old(self)@[r as int].update(c as int, v)),
    {
        let mut row = self.data[r];
        row[c] = v;
        self.data[r] = row;
        assert(final(self)@ =~~= old(self)@.update(r as int, old(self)@[r as int].update(c as int, v)));
    }

    /// The transpose: entry `(r, c)` of the result is entry `(c, r)` of `self`.
    /// `self` is left as it is.
    pub fn transposed(&self) -> (res: Matrix<T, C, R>)
        requires
            0 < R,
            0 < C,
        ensures
            res@ == transpose_view(self@, C as nat),
    {
        let mut res = Matrix { data: [[self.data[0][0]; R]; C] };
        let mut r: usize = 0;
        while r < C
            invariant
                0 < R,
                0 < C,
                r <= C,
                forall|i: int, j: int| 0 <= i < r && 0 <= j < R ==> #[trigger] res@[i][j] == self@[j][i],
            decreases C - r,
        {
            let mut row = res.data[r];
            let mut c: usize = 0;
            while c < R
                invariant
                    r < C,
                    c <= R,
                    forall|j: int| 0 <= j < c ==> #[trigger] row@[j] == self@[j][r as int],
                decreases R - c,
            {
                row[c] = self.data[c][r];
                c = c + 1;
            }
            let ghost prev = res;
            res.data[r] = row;
            assert(forall|i: int| 0 <= i < r ==> #[trigger] res@[i] == prev@[i]);
            assert(res@[r as int] == row@);
            r = r + 1;
        }
        assert(res@ =~~= transpose_view(self@, C as nat));
        res
    }
}

/// Every entry-wise sum of `a` and `b` is within the scalar's domain.
pub open spec fn sum_ok<T: Scalar>(a: Seq<Seq<T>>, b: Seq<Seq<T>>) -> bool {
    &&& T::obeys_add_spec()
    &&& forall|r: int, c: int|
        0 <= r < a.len() && 0 <= c < a[r].len() ==> #[trigger] a[r][c].add_req(b[r][c])
}

/// Every entry of `a` can be negated.
pub open spec fn neg_ok<T: Scalar>(a: Seq<Seq<T>>) -> bool {
    &&& T::obeys_neg_spec()
    &&& forall|r: int, c: int| 0 <= r < a.len() && 0 <= c < a[r].len() ==> #[trigger] a[r][c].neg_req()
}

/// Every entry of `a` can be divided by `s`.
pub open spec fn quotient_ok<T: Scalar>(a: Seq<Seq<T>>, s: T) -> bool {
    &&& T::obeys_div_spec()
    &&& forall|r: int, c: int| 0 <= r < a.len() && 0 <= c < a[r].len() ==> #[trigger] a[r][c].div_req(s)
}

/// Every step of the product of `a` with `b` (with `cols` columns) is within
/// the scalar's domain.
pub open spec fn product_ok<T: Scalar>(a: Seq<Seq<T>>, b: Seq<Seq<T>>, cols: nat) -> bool {
    &&& exact::<T>()
    &&& forall|r: int, c: int| 0 <= r < a.len() && 0 <= c < cols ==> #[trigger] dot_ok(a, b, r, c, b.len() as int)
}

impl<T: Scalar, const R: usize, const C: usize> vstd::std_specs::ops::AddSpecImpl for Matrix<T, R, C> {
    open spec fn obeys_add_spec() -> bool {
        true
    }

    open spec fn add_req(self, rhs: Self) -> bool {
        sum_ok(self@, rhs@)
    }

    open spec fn add_spec(self, rhs: Self) -> Self {
        from_view(sum_view(self@, rhs@))
    }
}

impl<T: Scalar, const R: usize, const C: usize> core::ops::Add for Matrix<T, R, C> {
    type Output = Self;

    /// Entry-wise sum.
    fn add(self, rhs: Self) -> (res: Self)
        ensures
            res@ == sum_view(self@, rhs@),
    {
        let mut res = self;
        let mut r: usize = 0;
        while r < R
            invariant
                r <= R,
                sum_ok(self@, rhs@),
                forall|i: int, j: int| 0 <= i < r && 0 <= j < C ==> #[trigger] res@[i][j] == self@[i][j].add_spec(rhs@[i][j]),
            decreases R - r,
        {
            let mut row = self.data[r];
            let mut c: usize = 0;
            while c < C
                invariant
                    r < R,
                    c <= C,
                    sum_ok(self@, rhs@),
                    forall|j: int| 0 <= j < c ==> #[trigger] row@[j] == self@[r as int][j].add_spec(rhs@[r as int][j]),
                decreases C - c,
            {
                assert(self@[r as int][c as int].add_req(rhs@[r as int][c as int]));
                row[c] = self.data[r][c] + rhs.data[r][c];
                c = c + 1;
            }
            let ghost prev = res;
            res.data[r] = row;
            assert(forall|i: int| 0 <= i < r ==> #[trigger] res@[i] == prev@[i]);
            assert(res@[r as int] == row@);
            r = r + 1;
        }
        assert(res@ =~~= sum_view(self@, rhs@));
        proof {
            lemma_from_view(res);
        }
        res
    }
}

impl<T: Scalar, const R: usize, const C: usize> vstd::std_specs::ops::NegSpecImpl for Matrix<T, R, C> {
    open spec fn obeys_neg_spec() -> bool {
        true
    }

    open spec fn neg_req(self) -> bool {
        neg_ok(self@)
    }

    open spec fn neg_spec(self) -> Self {
        from_view(neg_view(self@))
    }
}

impl<T: Scalar, const R: usize, const C: usize> core::ops::Neg for Matrix<T, R, C> {
    type Output = Self;

    /// Entry-wise sign flip.
    fn neg(self) -> (res: Self)
        ensures
            res@ == neg_view(self@),
    {
        let mut res = self;
        let mut r: usize = 0;
        while r < R
            invariant
                r <= R,
                neg_ok(self@),
                forall|i: int, j: int| 0 <= i < r && 0 <= j < C ==> #[trigger] res@[i][j] == self@[i][j].neg_spec(),
            decreases R - r,
        {
            let mut row = self.data[r];
            let mut c: usize = 0;
            while c < C
                invariant
                    r < R,
                    c <= C,
                    neg_ok(self@),
                    forall|j: int| 0 <= j < c ==> #[trigger] row@[j] == self@[r as int][j].neg_spec(),
                decreases C - c,
            {
                assert(self@[r as int][c as int].neg_req());
                row[c] = self.data[r][c].neg();
                c = c + 1;
            }
            let ghost prev = res;
            res.data[r] = row;
            assert(forall|i: int| 0 <= i < r ==> #[trigger] res@[i] == prev@[i]);
            assert(res@[r as int] == row@);
            r = r + 1;
        }
        assert(res@ =~~= neg_view(self@));
        proof {
            lemma_from_view(res);
        }
        res
    }
}

impl<T: Scalar, const R: usize, const C: usize> vstd::std_specs::ops::SubSpecImpl for Matrix<T, R, C> {
    open spec fn obeys_sub_spec() -> bool {
        true
    }

    open spec fn sub_req(self, rhs: Self) -> bool {
        neg_ok(rhs@) && sum_ok(self@, neg_view(rhs@))
    }

    open spec fn sub_spec(self, rhs: Self) -> Self {
        from_view(sum_view(self@, neg_view(rhs@)))
    }
}

impl<T: Scalar, const R: usize, const C: usize> core::ops::Sub for Matrix<T, R, C> {
    type Output = Self;

    /// `self + (-rhs)`.
    fn sub(self, rhs: Self) -> (res: Self)
        ensures
            res@ == sum_view(self@, neg_view(rhs@)),
    {
        let negated = rhs.neg();
        self + negated
    }
}

impl<T: Scalar, const R: usize, const C: usize> vstd::std_specs::ops::DivSpecImpl<T> for Matrix<T, R, C> {
    open spec fn obeys_div_spec() -> bool {
        true
    }

    open spec fn div_req(self, s: T) -> bool {
        quotient_ok(self@, s)
    }

    open spec fn div_spec(self, s: T) -> Self {
        from_view(quotient_view(self@, s))
    }
}

impl<T: Scalar, const R: usize, const C: usize> core::ops::Div<T> for Matrix<T, R, C> {
    type Output = Self;

    /// Every entry divided by `s`; no case is made of a zero `s`.
    fn div(self, s: T) -> (res: Self)
        ensures
            res@ == quotient_view(self@, s),
    {
        let mut res = self;
        let mut r: usize = 0;
        while r < R
            invariant
                r <= R,
                quotient_ok(self@, s),
                forall|i: int, j: int| 0 <= i < r && 0 <= j < C ==> #[trigger] res@[i][j] == self@[i][j].div_spec(s),
            decreases R - r,
        {
            let mut row = self.data[r];
            let mut c: usize = 0;
            while c < C
                invariant
                    r < R,
                    c <= C,
                    quotient_ok(self@, s),
                    forall|j: int| 0 <= j < c ==> #[trigger] row@[j] == self@[r as int][j].div_spec(s),
                decreases C - c,
            {
                assert(self@[r as int][c as int].div_req(s));
                row[c] = self.data[r][c] / s;
                c = c + 1;
            }
            let ghost prev = res;
            res.data[r] = row;
            assert(forall|i: int| 0 <= i < r ==> #[trigger] res@[i] == prev@[i]);
            assert(res@[r as int] == row@);
            r = r + 1;
        }
        assert(res@ =~~= quotient_view(self@, s));
        proof {
            lemma_from_view(res);
        }
        res
    }
}

impl<T: Scalar, const R: usize, const C: usize> Matrix<T, R, C> {
    /// The matrix with every entry zero.
    pub fn zero() -> (res: Self)
        ensures
            T::obeys_from_spec() ==> res@ == constant_view(R as nat, C as nat, zero::<T>()),
    {
        Self::filled(T::from(0i8))
    }

    /// The matrix with every entry one.
    pub fn one() -> (res: Self)
        ensures
            T::obeys_from_spec() ==> res@ == constant_view(R as nat, C as nat, one::<T>()),
    {
        Self::filled(T::from(1i8))
    }

    /// The entries in row-major order.
    pub fn to_vec(&self) -> (res: Vec<T>)
        ensures
            res@ == flatten_view(self@),
    {
        let mut res: Vec<T> = Vec::new();
        let mut r: usize = 0;
        while r < R
            invariant
                r <= R,
                res@ == flatten_view(self@.take(r as int)),
            decreases R - r,
        {
            let mut c: usize = 0;
            while c < C
                invariant
                    r < R,
                    c <= C,
                    res@ == flatten_view(self@.take(r as int)) + self@[r as int].take(c as int),
                decreases C - c,
            {
                res.push(self.data[r][c]);
                assert(self@[r as int].take(c + 1) =~= self@[r as int].take(c as int).push(self@[r as int][c as int]));
                c = c + 1;
            }
            assert(self@[r as int].take(C as int) =~= self@[r as int]);
            assert(self@.take(r + 1).drop_last() =~= self@.take(r as int));
            r = r + 1;
        }
        assert(self@.take(R as int) =~= self@);
        res
    }

    /// A fresh traversal of the entries in row-major order.
    pub fn iter(&self) -> (res: std::vec::IntoIter<T>)
        ensures
            res.remaining() == flatten_view(self@),
    {
        self.to_vec().into_iter()
    }

    /// The sum of each row.
    pub fn row_sums(&self) -> (res: [T; R])
        requires
            T::obeys_add_spec(),
            T::obeys_from_spec(),
            forall|r: int| 0 <= r < R ==> #[trigger] row_sum_ok(self@, r, C as int),
        ensures
            forall|r: int| 0 <= r < R ==> #[trigger] res@[r] == row_sum(self@, r, C as int),
    {
        let mut res = [T::from(0i8); R];
        let mut r: usize = 0;
        while r < R
            invariant
                r <= R,
                T::obeys_add_spec(),
                T::obeys_from_spec(),
                forall|i: int| 0 <= i < R ==> #[trigger] row_sum_ok(self@, i, C as int),
                forall|i: int| 0 <= i < r ==> #[trigger] res@[i] == row_sum(self@, i, C as int),
            decreases R - r,
        {
            let mut acc = T::from(0i8);
            let mut c: usize = 0;
            assert(row_sum_ok(self@, r as int, C as int));
            while c < C
                invariant
                    r < R,
                    c <= C,
                    T::obeys_add_spec(),
                    row_sum_ok(self@, r as int, C as int),
                    acc == row_sum(self@, r as int, c as int),
                decreases C - c,
            {
                proof {
                    lemma_row_sum_ok_prefix(self@, r as int, c + 1, C as int);
                }
                acc = acc + self.data[r][c];
                c = c + 1;
            }
            res[r] = acc;
            r = r + 1;
        }
        res
    }

    /// The sum of each column.
    pub fn col_sums(&self) -> (res: [T; C])
        requires
            T::obeys_add_spec(),
            T::obeys_from_spec(),
            forall|c: int| 0 <= c < C ==> #[trigger] col_sum_ok(self@, c, R as int),
        ensures
            forall|c: int| 0 <= c < C ==> #[trigger] res@[c] == col_sum(self@, c, R as int),
    {
        let mut res = [T::from(0i8); C];
        let mut c: usize = 0;
        while c < C
            invariant
                c <= C,
                T::obeys_add_spec(),
                T::obeys_from_spec(),
                forall|j: int| 0 <= j < C ==> #[trigger] col_sum_ok(self@, j, R as int),
                forall|j: int| 0 <= j < c ==> #[trigger] res@[j] == col_sum(self@, j, R as int),
            decreases C - c,
        {
            let mut acc = T::from(0i8);
            let mut r: usize = 0;
            assert(col_sum_ok(self@, c as int, R as int));
            while r < R
                invariant
                    c < C,
                    r <= R,
                    T::obeys_add_spec(),
                    col_sum_ok(self@, c as int, R as int),
                    acc == col_sum(self@, c as int, r as int),
                decreases R - r,
            {
                proof {
                    lemma_col_sum_ok_prefix(self@, c as int, r + 1, R as int);
                }
                acc = acc + self.data[r][c];
                r = r + 1;
            }
            res[c] = acc;
            c = c + 1;
        }
        res
    }
}

impl<T: Scalar, const D: usize> Matrix<T, D, D> {
    /// One on the diagonal, zero elsewhere.
    pub fn identity() -> (res: Self)
        ensures
            T::obeys_from_spec() ==> res@ == identity_view::<T>(D as nat),
    {
        let mut res = Self::zero();
        let unit = T::from(1i8);
        let mut i: usize = 0;
        while i < D
            invariant
                i <= D,
                T::obeys_from_spec() ==> unit == one::<T>(),
                T::obeys_from_spec() ==> forall|r: int, c: int| 0 <= r < D && 0 <= c < D ==>
                    #[trigger] res@[r][c] == if r == c && r < i { one::<T>() } else { zero::<T>() },
            decreases D - i,
        {
            res.set(i, i, unit);
            i = i + 1;
        }
        assert(T::obeys_from_spec() ==> res@ =~~= identity_view::<T>(D as nat));
        res
    }
}

impl<T: Scalar, const R: usize, const N: usize, const C: usize> vstd::std_specs::ops::MulSpecImpl<Matrix<T, N, C>> for Matrix<T, R, N> {
    open spec fn obeys_mul_spec() -> bool {
        true
    }

    open spec fn mul_req(self, rhs: Matrix<T, N, C>) -> bool {
        product_ok(self@, rhs@, C as nat)
    }

    open spec fn mul_spec(self, rhs: Matrix<T, N, C>) -> Matrix<T, R, C> {
        from_view(product_view(self@, rhs@, C as nat))
    }
}

impl<T: Scalar, const R: usize, const N: usize, const C: usize> core::ops::Mul<Matrix<T, N, C>> for Matrix<T, R, N> {
    type Output = Matrix<T, R, C>;

    /// The matrix product: entry `(r, c)` is the sum over `k` of
    /// `self[r][k] * rhs[k][c]`.
    fn mul(self, rhs: Matrix<T, N, C>) -> (res: Matrix<T, R, C>)
        ensures
            res@ == product_view(self@, rhs@, C as nat),
    {
        let mut res = Matrix::<T, R, C>::zero();
        let mut r: usize = 0;
        while r < R
            invariant
                r <= R,
                product_ok(self@, rhs@, C as nat),
                forall|i: int, j: int| 0 <= i < r && 0 <= j < C ==> #[trigger] res@[i][j] == dot(self@, rhs@, i, j, N as int),
            decreases R - r,
        {
            let mut row = res.data[r];
            let mut c: usize = 0;
            while c < C
                invariant
                    r < R,
                    c <= C,
                    product_ok(self@, rhs@, C as nat),
                    forall|j: int| 0 <= j < c ==> #[trigger] row@[j] == dot(self@, rhs@, r as int, j, N as int),
                decreases C - c,
            {
                let mut acc = T::from(0i8);
                let mut k: usize = 0;
                assert(dot_ok(self@, rhs@, r as int, c as int, rhs@.len() as int));
                while k < N
                    invariant
                        r < R,
                        c < C,
                        k <= N,
                        exact::<T>(),
                        dot_ok(self@, rhs@, r as int, c as int, N as int),
                        acc == dot(self@, rhs@, r as int, c as int, k as int),
                    decreases N - k,
                {
                    proof {
                        lemma_dot_ok_prefix(self@, rhs@, r as int, c as int, k + 1, N as int);
                    }
                    acc = acc + self.data[r][k] * rhs.data[k][c];
                    k = k + 1;
                }
                row[c] = acc;
                c = c + 1;
            }
            let ghost prev = res;
            res.data[r] = row;
            assert(forall|i: int| 0 <= i < r ==> #[trigger] res@[i] == prev@[i]);
            assert(res@[r as int] == row@);
            r = r + 1;
        }
        assert(res@ =~~= product_view(self@, rhs@, C as nat));
        proof {
            lemma_from_view(res);
        }
        res
    }
}

/// `dot_ok` of a longer sum gives it for every shorter one.
proof fn lemma_dot_ok_prefix<T: Scalar>(a: Seq<Seq<T>>, b: Seq<Seq<T>>, r: int, c: int, j: int, k: int)
    requires
        j <= k,
        dot_ok(a, b, r, c, k),
    ensures
        dot_ok(a, b, r, c, j),
    decreases k - j,
{
    if j < k {
        lemma_dot_ok_prefix(a, b, r, c, j, k - 1);
    }
}

/// `row_sum_ok` of a longer sum gives it for every shorter one.
proof fn lemma_row_sum_ok_prefix<T: Scalar>(a: Seq<Seq<T>>, r: int, j: int, k: int)
    requires
        j <= k,
        row_sum_ok(a, r, k),
    ensures
        row_sum_ok(a, r, j),
    decreases k - j,
{
    if j < k {
        lemma_row_sum_ok_prefix(a, r, j, k - 1);
    }
}

/// `col_sum_ok` of a longer sum gives it for every shorter one.
proof fn lemma_col_sum_ok_prefix<T: Scalar>(a: Seq<Seq<T>>, c: int, j: int, k: int)
    requires
        j <= k,
        col_sum_ok(a, c, k),
    ensures
        col_sum_ok(a, c, j),
    decreases k - j,
{
    if j < k {
        lemma_col_sum_ok_prefix(a, c, j, k - 1);
    }
}

} // verus!
