use vstd::prelude::*;

use crate::error::MathError;
use crate::scalar::{can_round_scaled, fits_i64, lemma_pow10_bounds, lemma_product_bounds, pow10, power_of_ten, round_div, round_scaled, RoundTo};
use crate::vector::{component, difference_of_products, sum_of_products, Vector4};

verus! {

/// `a` has `rows` rows of `cols` entries each.
pub open spec fn is_grid(a: Seq<Seq<int>>, rows: int, cols: int) -> bool {
    &&& a.len() == rows
    &&& forall|r: int| 0 <= r < rows ==> #[trigger] a[r].len() == cols
}

/// The `rows` x `cols` grid of zeros.
pub open spec fn zeros(rows: nat, cols: nat) -> Seq<Seq<int>> {
    Seq::new(rows, |r: int| Seq::new(cols, |c: int| 0int))
}

/// Ones where the row index equals the column index, zeros elsewhere.
pub open spec fn identity_of(rows: nat, cols: nat) -> Seq<Seq<int>> {
    Seq::new(rows, |r: int| Seq::new(cols, |c: int| if r == c { 1int } else { 0int }))
}

/// `a` (with `cols` columns) overwritten in row-major order by `values`, as far
/// as either reaches.
pub open spec fn filled(a: Seq<Seq<int>>, cols: nat, values: Seq<int>) -> Seq<Seq<int>> {
    Seq::new(
        a.len(),
        |r: int|
            Seq::new(
                cols,
                |c: int|
                    if r * cols + c < values.len() {
                        values[r * cols + c]
                    } else {
                        a[r][c]
                    },
            ),
    )
}

/// Position, before index `k` was removed, of what now stands at index `i`.
pub open spec fn skip(i: int, k: int) -> int {
    if i < k {
        i
    } else {
        i + 1
    }
}

/// `a` (with `cols` columns) without row `r` and column `c`, the other entries
/// in their order.
pub open spec fn submatrix_of(a: Seq<Seq<int>>, cols: int, r: int, c: int) -> Seq<Seq<int>> {
    Seq::new(
        (a.len() - 1) as nat,
        |i: int| Seq::new((cols - 1) as nat, |j: int| a[skip(i, r)][skip(j, c)]),
    )
}

/// `v` when `r + c` is even, `-v` when it is odd: the checkerboard of cofactor signs.
pub open spec fn checkerboard(r: int, c: int, v: int) -> int {
    if (r + c) % 2 == 0 {
        v
    } else {
        -v
    }
}

/// Determinant of the square matrix `a`, by cofactor expansion along the first
/// row. The matrix with no rows has determinant 1.
pub open spec fn det(a: Seq<Seq<int>>) -> int
    decreases a.len(), a.len() + 1,
{
    if a.len() == 0 {
        1
    } else {
        expansion(a, a.len() as int)
    }
}

/// The first `k` terms of the cofactor expansion of `a` along its first row.
pub open spec fn expansion(a: Seq<Seq<int>>, k: int) -> int
    decreases a.len(), k,
{
    if k <= 0 || k > a.len() {
        0
    } else {
        expansion(a, k - 1) + a[0][k - 1] * checkerboard(
            0,
            k - 1,
            det(submatrix_of(a, a.len() as int, 0, k - 1)),
        )
    }
}

/// Determinant of `a` with row `r` and column `c` removed.
pub open spec fn minor_of(a: Seq<Seq<int>>, r: int, c: int) -> int {
    det(submatrix_of(a, a.len() as int, r, c))
}

/// The minor at `(r, c)` with the checkerboard sign.
pub open spec fn cofactor_of(a: Seq<Seq<int>>, r: int, c: int) -> int {
    checkerboard(r, c, minor_of(a, r, c))
}

/// Whether every value that computing `det(a)` goes through fits in an `i64`:
/// the determinant itself, and for larger matrices each partial sum of the
/// expansion and each determinant it recurses into.
pub open spec fn det_fits(a: Seq<Seq<int>>) -> bool
    decreases a.len(), a.len() + 1,
{
    if a.len() <= 2 {
        fits_i64(det(a))
    } else {
        expansion_fits(a, a.len() as int)
    }
}

/// Whether the first `k` steps of the expansion of `det(a)` stay in `i64`.
pub open spec fn expansion_fits(a: Seq<Seq<int>>, k: int) -> bool
    decreases a.len(), k,
{
    if k <= 0 || k > a.len() {
        true
    } else {
        &&& expansion_fits(a, k - 1)
        &&& fits_i64(expansion(a, k))
        &&& det_fits(submatrix_of(a, a.len() as int, 0, k - 1))
    }
}

/// The adjugate of the square matrix `a`: the transpose of its cofactors.
pub open spec fn adjugate_of(a: Seq<Seq<int>>) -> Seq<Seq<int>> {
    Seq::new(a.len(), |i: int| Seq::new(a.len(), |j: int| cofactor_of(a, j, i)))
}

/// Every entry of `a` multiplied by `k`.
pub open spec fn scaled(a: Seq<Seq<int>>, k: int) -> Seq<Seq<int>> {
    a.map_values(|row: Seq<int>| row.map_values(|v: int| k * v))
}

/// `1` for a positive `v`, `-1` otherwise.
pub open spec fn sign_of(v: int) -> int {
    if v > 0 {
        1
    } else {
        -1
    }
}

/// Whether the inverse of the non-empty square matrix `a` can be computed in
/// `i64`: its determinant and every minor, and their negations, fit.
pub open spec fn inverse_fits(a: Seq<Seq<int>>) -> bool {
    &&& det_fits(a)
    &&& det(a) != i64::MIN
    &&& forall|r: int, c: int|
        0 <= r < a.len() && 0 <= c < a.len() ==> {
            &&& det_fits(#[trigger] submatrix_of(a, a.len() as int, r, c))
            &&& det(submatrix_of(a, a.len() as int, r, c)) != i64::MIN
        }
}

/// Entry `(r, c)` of the product of two 4 x 4 matrices: row `r` of `a` times column `c` of `b`.
pub open spec fn row_times_column(a: Seq<Seq<int>>, b: Seq<Seq<int>>, r: int, c: int) -> int {
    a[r][0] * b[0][c] + a[r][1] * b[1][c] + a[r][2] * b[2][c] + a[r][3] * b[3][c]
}

/// The product of two 4 x 4 matrices.
pub open spec fn product_of(a: Seq<Seq<int>>, b: Seq<Seq<int>>) -> Seq<Seq<int>> {
    Seq::new(4, |r: int| Seq::new(4, |c: int| row_times_column(a, b, r, c)))
}

/// Whether every entry of the 4 x 4 product fits in an `i64`.
pub open spec fn product_fits(a: Seq<Seq<int>>, b: Seq<Seq<int>>) -> bool {
    forall|r: int, c: int| 0 <= r < 4 && 0 <= c < 4 ==> fits_i64(#[trigger] row_times_column(a, b, r, c))
}

/// Row `r` of a matrix with four columns times the vector `v`.
pub open spec fn row_times_vector(a: Seq<Seq<int>>, r: int, v: Vector4) -> int {
    a[r][0] * v.x + a[r][1] * v.y + a[r][2] * v.z + a[r][3] * v.w
}

proof fn lemma_det_1x1(a: Seq<Seq<int>>)
    requires
        is_grid(a, 1, 1),
    ensures
        det(a) == a[0][0],
{
    let s = submatrix_of(a, 1, 0, 0);
    assert(s.len() == 0);
    assert(det(s) == 1);
    assert(expansion(a, 0) == 0);
    assert(expansion(a, 1) == expansion(a, 0) + a[0][0] * checkerboard(0, 0, det(s)));
    assert(det(a) == expansion(a, 1));
}

/// A 2 x 2 determinant is `a * d - b * c`, with no further recursion.
pub proof fn lemma_det_2x2(a: Seq<Seq<int>>)
    requires
        is_grid(a, 2, 2),
    ensures
        det(a) == a[0][0] * a[1][1] - a[0][1] * a[1][0],
{
    let s0 = submatrix_of(a, 2, 0, 0);
    let s1 = submatrix_of(a, 2, 0, 1);
    assert(s0[0][0] == a[1][1]);
    assert(s1[0][0] == a[1][0]);
    lemma_det_1x1(s0);
    lemma_det_1x1(s1);
    assert(expansion(a, 0) == 0);
    assert(expansion(a, 1) == expansion(a, 0) + a[0][0] * checkerboard(0, 0, det(s0)));
    assert(expansion(a, 2) == expansion(a, 1) + a[0][1] * checkerboard(0, 1, det(s1)));
    assert(a[0][1] * (-a[1][0]) == -(a[0][1] * a[1][0])) by (nonlinear_arith);
    assert(det(a) == expansion(a, 2));
}

proof fn lemma_expansion_fits_prefix(a: Seq<Seq<int>>, k: int, n: int)
    requires
        expansion_fits(a, n),
        0 <= k <= n <= a.len(),
    ensures
        expansion_fits(a, k),
    decreases n - k,
{
    if k < n {
        lemma_expansion_fits_prefix(a, k, n - 1);
    }
}

/// A dense matrix of `i64` entries, stored row by row.
#[derive(Debug, Clone)]
pub struct Matrix {
    rows: usize,
    columns: usize,
    data: Vec<Vec<i64>>,
}

impl View for Matrix {
    type V = Seq<Seq<int>>;

    closed spec fn view(&self) -> Seq<Seq<int>> {
        Seq::new(
            self.data@.len(),
            |r: int| Seq::new(self.data@[r]@.len(), |c: int| self.data@[r]@[c] as int),
        )
    }
}

proof fn lemma_grid_size(rows: int, cols: int, r: int, c: int)
    requires
        0 <= r < rows,
        0 <= c < cols,
    ensures
        r * cols + c < rows * cols,
        0 <= r * cols,
{
    assert(r * cols + c < rows * cols) by (nonlinear_arith)
        requires 0 <= r < rows, 0 <= c < cols;
    assert(0 <= r * cols) by (nonlinear_arith)
        requires 0 <= r, 0 <= cols;
}

impl Matrix {
    proof fn lemma_view(&self)
        requires
            self.wf(),
        ensures
            self.data@.len() == self.rows,
            forall|r: int| 0 <= r < self.rows ==> (#[trigger] self.data@[r])@.len() == self.columns,
            forall|r: int, c: int|
                0 <= r < self.rows && 0 <= c < self.columns ==> #[trigger] self@[r][c] == self.data@[r]@[c] as int,
    {
        assert forall|r: int| 0 <= r < self.rows implies (#[trigger] self.data@[r])@.len() == self.columns by {
            assert(self@[r].len() == self.columns);
        }
    }

    pub closed spec fn num_rows(&self) -> nat {
        self.rows as nat
    }

    pub closed spec fn num_columns(&self) -> nat {
        self.columns as nat
    }

    /// The entries form a `num_rows() x num_columns()` grid whose size fits in a `usize`.
    pub open spec fn wf(&self) -> bool {
        &&& is_grid(self@, self.num_rows() as int, self.num_columns() as int)
        &&& self.num_rows() * self.num_columns() <= usize::MAX
    }

    /// A `rows x columns` matrix of zeros.
    pub fn new(rows: usize, columns: usize) -> (r: Self)
        requires
            rows * columns <= usize::MAX,
        ensures
            r.wf(),
            r.num_rows() == rows,
            r.num_columns() == columns,
            r@ == zeros(rows as nat, columns as nat),
    {
        let mut data: Vec<Vec<i64>> = Vec::new();
        let mut i: usize = 0;
        while i < rows
            invariant
                i <= rows,
                data@.len() == i,
                forall|k: int| 0 <= k < i ==> #[trigger] data@[k]@ == Seq::new(columns as nat, |c: int| 0i64),
            decreases rows - i,
        {
            let mut row: Vec<i64> = Vec::new();
            let mut j: usize = 0;
            while j < columns
                invariant
                    j <= columns,
                    row@ == Seq::new(j as nat, |c: int| 0i64),
                decreases columns - j,
            {
                row.push(0);
                j = j + 1;
                assert(row@ =~= Seq::new(j as nat, |c: int| 0i64));
            }
            data.push(row);
            i = i + 1;
        }
        let r = Matrix { rows, columns, data };
        assert(r@ =~~= zeros(rows as nat, columns as nat));
        r
    }

    /// A `rows x columns` matrix with ones where the row index equals the
    /// column index and zeros elsewhere.
    pub fn identity(rows: usize, columns: usize) -> (r: Self)
        requires
            rows * columns <= usize::MAX,
        ensures
            r.wf(),
            r.num_rows() == rows,
            r.num_columns() == columns,
            r@ == identity_of(rows as nat, columns as nat),
    {
        let mut out = Self::new(rows, columns);
        let mut i: usize = 0;
        while i < rows && i < columns
            invariant
                out.wf(),
                out.num_rows() == rows,
                out.num_columns() == columns,
                i <= rows,
                forall|r: int, c: int|
                    0 <= r < rows && 0 <= c < columns ==> #[trigger] out@[r][c] == if r == c && r < i {
                        1int
                    } else {
                        0int
                    },
            decreases rows - i,
        {
            out.set_entry(i, i, 1);
            i = i + 1;
        }
        assert(out@ =~~= identity_of(rows as nat, columns as nat));
        out
    }

    /// Writes `value` at `(row, column)`, which must lie inside the matrix.
    fn set_entry(&mut self, row: usize, column: usize, value: i64)
        requires
            old(self).wf(),
            row < old(self).num_rows(),
            column < old(self).num_columns(),
        ensures
            final(self).wf(),
            final(self).num_rows() == old(self).num_rows(),
            final(self).num_columns() == old(self).num_columns(),
            final(self)@ == old(self)@.update(row as int, old(self)@[row as int].update(column as int, value as int)),
    {
        proof {
            self.lemma_view();
        }
        let mut line = self.data[row].clone();
        line.set(column, value);
        self.data.set(row, line);
        assert(self@ =~~= old(self)@.update(row as int, old(self)@[row as int].update(column as int, value as int)));
    }

    /// The entry at `(row, column)`.
    pub fn get(&self, row: usize, column: usize) -> (r: Result<i64, MathError>)
        requires
            self.wf(),
        ensures
            row < self.num_rows() && column < self.num_columns() ==> r == Ok::<i64, MathError>(self@[row as int][column as int] as i64),
            !(row < self.num_rows() && column < self.num_columns()) ==> r == Err::<i64, MathError>(MathError::IndexOutOfRange),
    {
        proof {
            self.lemma_view();
        }
        if row < self.rows && column < self.columns {
            Ok(self.data[row][column])
        } else {
            Err(MathError::IndexOutOfRange)
        }
    }

    /// Writes `value` at `(row, column)`; outside the matrix nothing changes.
    pub fn set(&mut self, row: usize, column: usize, value: i64) -> (r: Result<(), MathError>)
        requires
            old(self).wf(),
        ensures
            final(self).wf(),
            final(self).num_rows() == old(self).num_rows(),
            final(self).num_columns() == old(self).num_columns(),
            row < old(self).num_rows() && column < old(self).num_columns() ==> {
                &&& r is Ok
                &&& final(self)@ == old(self)@.update(row as int, old(self)@[row as int].update(column as int, value as int))
            },
            !(row < old(self).num_rows() && column < old(self).num_columns()) ==> {
                &&& r == Err::<(), MathError>(MathError::IndexOutOfRange)
                &&& final(self)@ == old(self)@
            },
    {
        if row < self.rows && column < self.columns {
            self.set_entry(row, column, value);
            Ok(())
        } else {
            Err(MathError::IndexOutOfRange)
        }
    }

    /// Number of rows.
    pub fn rows(&self) -> (r: usize)
        ensures
            r == self.num_rows(),
    {
        self.rows
    }

    /// Number of columns.
    pub fn columns(&self) -> (r: usize)
        ensures
            r == self.num_columns(),
    {
        self.columns
    }

    /// Number of entries, `rows * columns`.
    pub fn len(&self) -> (r: usize)
        requires
            self.wf(),
        ensures
            r == self.num_rows() * self.num_columns(),
    {
        self.rows * self.columns
    }

    /// `self` without `row` and `column`, which must lie inside it.
    fn without(&self, row: usize, column: usize) -> (out: Matrix)
        requires
            self.wf(),
            row < self.num_rows(),
            column < self.num_columns(),
        ensures
            out.wf(),
            out.num_rows() == self.num_rows() - 1,
            out.num_columns() == self.num_columns() - 1,
            out@ == submatrix_of(self@, self.num_columns() as int, row as int, column as int),
    {
        proof {
            self.lemma_view();
        }
        let mut data: Vec<Vec<i64>> = Vec::new();
        let mut r: usize = 0;
        while r < self.rows
            invariant
                self.wf(),
                row < self.rows,
                column < self.columns,
                r <= self.rows,
                data@.len() == if r <= row { r as int } else { r - 1 },
                forall|i: int| 0 <= i < data@.len() ==> (#[trigger] data@[i])@.len() == self.columns - 1,
                forall|i: int, j: int|
                    0 <= i < data@.len() && 0 <= j < self.columns - 1 ==> #[trigger] data@[i]@[j] as int
                        == self@[skip(i, row as int)][skip(j, column as int)],
            decreases self.rows - r,
        {
            proof {
                self.lemma_view();
            }
            if r != row {
                let mut line: Vec<i64> = Vec::new();
                let mut c: usize = 0;
                while c < self.columns
                    invariant
                        self.wf(),
                        r < self.rows,
                        column < self.columns,
                        c <= self.columns,
                        line@.len() == if c <= column { c as int } else { c - 1 },
                        forall|j: int| 0 <= j < line@.len() ==> #[trigger] line@[j] as int == self@[r as int][skip(j, column as int)],
                    decreases self.columns - c,
                {
                    proof {
                        self.lemma_view();
                    }
                    if c != column {
                        line.push(self.data[r][c]);
                    }
                    c = c + 1;
                }
                data.push(line);
            }
            r = r + 1;
        }
        proof {
            assert((self.rows - 1) * (self.columns - 1) <= self.rows * self.columns) by (nonlinear_arith)
                requires self.rows >= 1, self.columns >= 1;
        }
        let out = Matrix { rows: self.rows - 1, columns: self.columns - 1, data };
        assert(out@ =~~= submatrix_of(self@, self.columns as int, row as int, column as int));
        out
    }

    /// `m` without row `row_to_remove` and column `column_to_remove`, the other
    /// entries keeping their relative order.
    pub fn submatrix(m: Self, row_to_remove: usize, column_to_remove: usize) -> (r: Result<Matrix, MathError>)
        requires
            m.wf(),
        ensures
            row_to_remove < m.num_rows() && column_to_remove < m.num_columns() ==> (r matches Ok(s) && {
                &&& s.wf()
                &&& s.num_rows() == m.num_rows() - 1
                &&& s.num_columns() == m.num_columns() - 1
                &&& s@ == submatrix_of(m@, m.num_columns() as int, row_to_remove as int, column_to_remove as int)
            }),
            !(row_to_remove < m.num_rows() && column_to_remove < m.num_columns()) ==> r == Err::<Matrix, MathError>(MathError::InvalidArgument),
    {
        if row_to_remove < m.rows && column_to_remove < m.columns {
            Ok(m.without(row_to_remove, column_to_remove))
        } else {
            Err(MathError::InvalidArgument)
        }
    }

    /// Determinant of a square matrix, by the 1 x 1 and 2 x 2 formulas or by
    /// cofactor expansion along the first row. The expansion costs `O(n!)`:
    /// it is meant for the small sizes of geometry work.
    fn det_value(&self) -> (d: i64)
        requires
            self.wf(),
            self.num_rows() == self.num_columns(),
            det_fits(self@),
        ensures
            d == det(self@),
        decreases self.num_rows(),
    {
        proof {
            self.lemma_view();
        }
        let n = self.rows;
        if n == 0 {
            return 1;
        }
        if n == 1 {
            proof {
                lemma_det_1x1(self@);
            }
            return self.data[0][0];
        }
        if n == 2 {
            proof {
                lemma_det_2x2(self@);
            }
            return difference_of_products(self.data[0][0], self.data[1][1], self.data[0][1], self.data[1][0]);
        }
        let mut acc: i128 = 0;
        let mut c: usize = 0;
        while c < n
            invariant
                self.wf(),
                2 < n == self.rows == self.columns,
                expansion_fits(self@, n as int),
                c <= n,
                acc == expansion(self@, c as int),
            decreases n - c,
        {
            proof {
                self.lemma_view();
                lemma_expansion_fits_prefix(self@, c + 1, n as int);
            }
            let sub = self.without(0, c);
            let minor = sub.det_value();
            let entry = self.data[0][c];
            proof {
                lemma_product_bounds(entry as int, minor as int);
                assert(entry * (-minor) == -(entry * minor)) by (nonlinear_arith);
            }
            let mut term = (entry as i128) * (minor as i128);
            if c % 2 == 1 {
                term = -term;
            }
            acc = acc + term;
            c = c + 1;
        }
        acc as i64
    }

    /// Determinant of a square matrix.
    pub fn determinant(m: Self) -> (r: Result<i64, MathError>)
        requires
            m.wf(),
            m.num_rows() == m.num_columns() ==> det_fits(m@),
        ensures
            m.num_rows() != m.num_columns() ==> r == Err::<i64, MathError>(MathError::NotSquare),
            m.num_rows() == m.num_columns() == 0 ==> r == Err::<i64, MathError>(MathError::InvalidArgument),
            m.num_rows() == m.num_columns() > 0 ==> r == Ok::<i64, MathError>(det(m@) as i64),
    {
        if m.rows != m.columns {
            Err(MathError::NotSquare)
        } else if m.rows == 0 {
            Err(MathError::InvalidArgument)
        } else {
            Ok(m.det_value())
        }
    }

    /// Determinant of `m` without row `row` and column `column`.
    pub fn minor(m: Self, row: usize, column: usize) -> (r: Result<i64, MathError>)
        requires
            m.wf(),
            m.num_rows() == m.num_columns() && row < m.num_rows() && column < m.num_columns() ==> det_fits(
                submatrix_of(m@, m@.len() as int, row as int, column as int),
            ),
        ensures
            m.num_rows() != m.num_columns() ==> r == Err::<i64, MathError>(MathError::NotSquare),
            m.num_rows() == m.num_columns() && !(1 < m.num_rows() && row < m.num_rows() && column < m.num_columns())
                ==> r == Err::<i64, MathError>(MathError::InvalidArgument),
            m.num_rows() == m.num_columns() && 1 < m.num_rows() && row < m.num_rows() && column < m.num_columns()
                ==> r == Ok::<i64, MathError>(minor_of(m@, row as int, column as int) as i64),
    {
        if m.rows != m.columns {
            return Err(MathError::NotSquare);
        }
        match Self::submatrix(m, row, column) {
            Ok(sub) => Self::determinant(sub),
            Err(e) => Err(e),
        }
    }

    /// The minor at `(row, column)`, negated when `row + column` is odd.
    pub fn cofactor(m: Self, row: usize, column: usize) -> (r: Result<i64, MathError>)
        requires
            m.wf(),
            m.num_rows() == m.num_columns() && row < m.num_rows() && column < m.num_columns() ==> {
                &&& det_fits(submatrix_of(m@, m@.len() as int, row as int, column as int))
                &&& fits_i64(cofactor_of(m@, row as int, column as int))
            },
        ensures
            m.num_rows() != m.num_columns() ==> r == Err::<i64, MathError>(MathError::NotSquare),
            m.num_rows() == m.num_columns() && !(1 < m.num_rows() && row < m.num_rows() && column < m.num_columns())
                ==> r == Err::<i64, MathError>(MathError::InvalidArgument),
            m.num_rows() == m.num_columns() && 1 < m.num_rows() && row < m.num_rows() && column < m.num_columns()
                ==> r == Ok::<i64, MathError>(cofactor_of(m@, row as int, column as int) as i64),
    {
        let minor_value = Self::minor(m, row, column)?;
        if row % 2 == column % 2 {
            Ok(minor_value)
        } else {
            Ok(-minor_value)
        }
    }

    /// The inverse of `m`, exactly: its adjugate over its determinant, signs
    /// arranged so that the denominator is positive. An inverse that is not
    /// wanted exactly can be brought to a fixed number of decimals by `round_to`.
    pub fn inverse(m: Self) -> (r: Result<RationalMatrix, MathError>)
        requires
            m.wf(),
            m.num_rows() == m.num_columns() && m.num_rows() > 0 ==> inverse_fits(m@),
        ensures
            m.num_rows() != m.num_columns() ==> r == Err::<RationalMatrix, MathError>(MathError::NotSquare),
            m.num_rows() == m.num_columns() == 0 ==> r == Err::<RationalMatrix, MathError>(MathError::InvalidArgument),
            m.num_rows() == m.num_columns() > 0 && det(m@) == 0 ==> r == Err::<RationalMatrix, MathError>(MathError::SingularMatrix),
            m.num_rows() == m.num_columns() > 0 && det(m@) != 0 ==> (r matches Ok(inv) && {
                &&& inv.wf()
                &&& inv.numerators.num_rows() == m.num_rows()
                &&& inv.numerators.num_columns() == m.num_columns()
                &&& inv.denominator == sign_of(det(m@)) * det(m@)
                &&& inv.numerators@ == scaled(adjugate_of(m@), sign_of(det(m@)))
            }),
    {
        if m.rows != m.columns {
            return Err(MathError::NotSquare);
        }
        if m.rows == 0 {
            return Err(MathError::InvalidArgument);
        }
        let det = m.det_value();
        if det == 0 {
            return Err(MathError::SingularMatrix);
        }
        let n = m.rows;
        proof {
            m.lemma_view();
        }
        let ghost a = m@;
        let ghost sign = sign_of(det as int);
        let mut data: Vec<Vec<i64>> = Vec::new();
        let mut i: usize = 0;
        while i < n
            invariant
                m.wf(),
                a == m@,
                n == m.rows == m.columns,
                inverse_fits(a),
                sign == sign_of(det as int),
                det != 0,
                i <= n,
                data@.len() == i,
                forall|k: int| 0 <= k < i ==> (#[trigger] data@[k])@.len() == n,
                forall|k: int, j: int|
                    0 <= k < i && 0 <= j < n ==> #[trigger] data@[k]@[j] as int == sign * cofactor_of(a, j, k),
            decreases n - i,
        {
            let mut line: Vec<i64> = Vec::new();
            let mut j: usize = 0;
            while j < n
                invariant
                    m.wf(),
                    a == m@,
                    n == m.rows == m.columns,
                    inverse_fits(a),
                    sign == sign_of(det as int),
                    det != 0,
                    i < n,
                    j <= n,
                    line@.len() == j,
                    forall|k: int| 0 <= k < j ==> #[trigger] line@[k] as int == sign * cofactor_of(a, k, i as int),
                decreases n - j,
            {
                let sub = m.without(j, i);
                assert(det_fits(submatrix_of(a, a.len() as int, j as int, i as int)));
                let minor = sub.det_value();
                let mut value = minor;
                if j % 2 != i % 2 {
                    value = -value;
                }
                assert(value == cofactor_of(a, j as int, i as int));
                if det < 0 {
                    value = -value;
                }
                assert(value == sign * cofactor_of(a, j as int, i as int)) by {
                    if det < 0 {
                        assert(sign == -1);
                    } else {
                        assert(sign == 1);
                    }
                }
                line.push(value);
                j = j + 1;
            }
            data.push(line);
            i = i + 1;
        }
        let numerators = Matrix { rows: n, columns: n, data };
        let denominator = if det < 0 { -det } else { det };
        assert(numerators@ =~~= scaled(adjugate_of(a), sign));
        Ok(RationalMatrix { numerators, denominator })
    }

    /// A copy of `m` overwritten in row-major order by `values`, as far as
    /// both reach; the shape stays that of `m`.
    pub fn fill(m: Self, values: Vec<i64>) -> (r: Self)
        requires
            m.wf(),
        ensures
            r.wf(),
            r.num_rows() == m.num_rows(),
            r.num_columns() == m.num_columns(),
            r@ == filled(m@, m.num_columns(), values@.map_values(|v: i64| v as int)),
    {
        proof {
            m.lemma_view();
        }
        let ghost vals = values@.map_values(|v: i64| v as int);
        let mut data: Vec<Vec<i64>> = Vec::new();
        let mut k: usize = 0;
        let mut i: usize = 0;
        while i < m.rows
            invariant
                m.wf(),
                vals == values@.map_values(|v: i64| v as int),
                i <= m.rows,
                k == i * m.columns,
                data@.len() == i,
                forall|q: int| 0 <= q < i ==> (#[trigger] data@[q])@.len() == m.columns,
                forall|q: int, j: int|
                    0 <= q < i && 0 <= j < m.columns ==> #[trigger] data@[q]@[j] as int == filled(
                        m@,
                        m.num_columns(),
                        vals,
                    )[q][j],
            decreases m.rows - i,
        {
            proof {
                m.lemma_view();
            }
            let mut line: Vec<i64> = Vec::new();
            let mut j: usize = 0;
            while j < m.columns
                invariant
                    m.wf(),
                    vals == values@.map_values(|v: i64| v as int),
                    i < m.rows,
                    j <= m.columns,
                    k == i * m.columns + j,
                    line@.len() == j,
                    forall|q: int| 0 <= q < j ==> #[trigger] line@[q] as int == filled(
                        m@,
                        m.num_columns(),
                        vals,
                    )[i as int][q],
                decreases m.columns - j,
            {
                proof {
                    m.lemma_view();
                    lemma_grid_size(m.rows as int, m.columns as int, i as int, j as int);
                }
                if k < values.len() {
                    line.push(values[k]);
                } else {
                    line.push(m.data[i][j]);
                }
                k = k + 1;
                j = j + 1;
            }
            proof {
                assert((i + 1) * m.columns == i * m.columns + m.columns) by (nonlinear_arith);
            }
            data.push(line);
            i = i + 1;
        }
        let r = Matrix { rows: m.rows, columns: m.columns, data };
        assert(r@ =~~= filled(m@, m.num_columns(), vals));
        r
    }

    /// Product of two 4 x 4 matrices, each entry a row of `a` times a column of `b`.
    pub fn mul(a: Self, b: Self) -> (r: Result<Matrix, MathError>)
        requires
            a.wf(),
            b.wf(),
            a.num_rows() == 4 && a.num_columns() == 4 && b.num_rows() == 4 && b.num_columns() == 4 ==> product_fits(a@, b@),
        ensures
            !(a.num_rows() == 4 && a.num_columns() == 4 && b.num_rows() == 4 && b.num_columns() == 4) ==> r == Err::<Matrix, MathError>(MathError::DimensionMismatch),
            a.num_rows() == 4 && a.num_columns() == 4 && b.num_rows() == 4 && b.num_columns() == 4 ==> (r matches Ok(p) && {
                &&& p.wf()
                &&& p.num_rows() == 4
                &&& p.num_columns() == 4
                &&& p@ == product_of(a@, b@)
            }),
    {
        if !(a.rows == 4 && a.columns == 4 && b.rows == 4 && b.columns == 4) {
            return Err(MathError::DimensionMismatch);
        }
        proof {
            a.lemma_view();
            b.lemma_view();
        }
        let mut data: Vec<Vec<i64>> = Vec::new();
        let mut i: usize = 0;
        while i < 4
            invariant
                a.wf(),
                b.wf(),
                a.rows == 4 && a.columns == 4 && b.rows == 4 && b.columns == 4,
                product_fits(a@, b@),
                i <= 4,
                data@.len() == i,
                forall|q: int| 0 <= q < i ==> (#[trigger] data@[q])@.len() == 4,
                forall|q: int, j: int|
                    0 <= q < i && 0 <= j < 4 ==> #[trigger] data@[q]@[j] as int == row_times_column(a@, b@, q, j),
            decreases 4 - i,
        {
            let mut line: Vec<i64> = Vec::new();
            let mut j: usize = 0;
            while j < 4
                invariant
                    a.wf(),
                    b.wf(),
                    a.rows == 4 && a.columns == 4 && b.rows == 4 && b.columns == 4,
                    product_fits(a@, b@),
                    i < 4,
                    j <= 4,
                    line@.len() == j,
                    forall|q: int| 0 <= q < j ==> #[trigger] line@[q] as int == row_times_column(a@, b@, i as int, q),
                decreases 4 - j,
            {
                proof {
                    a.lemma_view();
                    b.lemma_view();
                    assert(fits_i64(row_times_column(a@, b@, i as int, j as int)));
                }
                let entry = sum_of_products(
                    a.data[i][0], b.data[0][j],
                    a.data[i][1], b.data[1][j],
                    a.data[i][2], b.data[2][j],
                    a.data[i][3], b.data[3][j],
                );
                line.push(entry);
                j = j + 1;
            }
            data.push(line);
            i = i + 1;
        }
        let p = Matrix { rows: 4, columns: 4, data };
        assert(p@ =~~= product_of(a@, b@));
        Ok(p)
    }

    /// `m` applied to `v`: component `i` is row `i` of `m` times `v`. The matrix
    /// has four columns and at most four rows; components past its rows are zero.
    pub fn mul_vector(m: Self, v: Vector4) -> (r: Result<Vector4, MathError>)
        requires
            m.wf(),
            m.num_columns() == 4 && m.num_rows() <= 4 ==> forall|i: int|
                0 <= i < m.num_rows() ==> fits_i64(#[trigger] row_times_vector(m@, i, v)),
        ensures
            !(m.num_columns() == 4 && m.num_rows() <= 4) ==> r == Err::<Vector4, MathError>(MathError::DimensionMismatch),
            m.num_columns() == 4 && m.num_rows() <= 4 ==> (r matches Ok(out) && forall|i: int|
                0 <= i < 4 ==> #[trigger] component(out, i) == if i < m.num_rows() {
                    row_times_vector(m@, i, v)
                } else {
                    0
                }),
    {
        if !(m.columns == 4 && m.rows <= 4) {
            return Err(MathError::DimensionMismatch);
        }
        proof {
            m.lemma_view();
        }
        let mut out = Vector4::new(0, 0, 0, 0);
        let mut i: usize = 0;
        while i < m.rows
            invariant
                m.wf(),
                m.columns == 4 && m.rows <= 4,
                forall|q: int| 0 <= q < m.num_rows() ==> fits_i64(#[trigger] row_times_vector(m@, q, v)),
                i <= m.rows,
                forall|q: int|
                    0 <= q < 4 ==> #[trigger] component(out, q) == if q < i {
                        row_times_vector(m@, q, v)
                    } else {
                        0
                    },
            decreases m.rows - i,
        {
            proof {
                m.lemma_view();
                assert(fits_i64(row_times_vector(m@, i as int, v)));
            }
            let value = sum_of_products(m.data[i][0], v.x, m.data[i][1], v.y, m.data[i][2], v.z, m.data[i][3], v.w);
            let _ = out.set(i, value);
            i = i + 1;
        }
        Ok(out)
    }
}

/// Matrices are equal when they have the same shape and the same entries.
impl PartialEq for Matrix {
    fn eq(&self, other: &Matrix) -> (r: bool) {
        if self.rows != other.rows || self.columns != other.columns {
            return false;
        }
        if self.data.len() != other.data.len() {
            assert(self@.len() != other@.len());
            return false;
        }
        let mut i: usize = 0;
        while i < self.data.len()
            invariant
                self.data@.len() == other.data@.len(),
                i <= self.data@.len(),
                forall|q: int| 0 <= q < i ==> #[trigger] self@[q] == other@[q],
            decreases self.data@.len() - i,
        {
            if self.data[i].len() != other.data[i].len() {
                assert(self@[i as int].len() != other@[i as int].len());
                return false;
            }
            let mut j: usize = 0;
            while j < self.data[i].len()
                invariant
                    self.data@.len() == other.data@.len(),
                    i < self.data@.len(),
                    self.data@[i as int]@.len() == other.data@[i as int]@.len(),
                    j <= self.data@[i as int]@.len(),
                    forall|q: int| 0 <= q < j ==> #[trigger] self.data@[i as int]@[q] == other.data@[i as int]@[q],
                decreases self.data@[i as int]@.len() - j,
            {
                if self.data[i][j] != other.data[i][j] {
                    assert(self@[i as int][j as int] != other@[i as int][j as int]);
                    return false;
                }
                j = j + 1;
            }
            assert(self@[i as int] =~= other@[i as int]);
            i = i + 1;
        }
        assert(self@ =~= other@);
        true
    }
}

impl vstd::std_specs::cmp::PartialEqSpecImpl for Matrix {
    open spec fn obeys_eq_spec() -> bool {
        true
    }

    open spec fn eq_spec(&self, other: &Matrix) -> bool {
        &&& self.num_rows() == other.num_rows()
        &&& self.num_columns() == other.num_columns()
        &&& self@ == other@
    }
}

/// A matrix of rational entries over one common positive denominator: the
/// entry at `(r, c)` stands for `numerators[r][c] / denominator`.
#[derive(Debug, Clone)]
pub struct RationalMatrix {
    pub numerators: Matrix,
    pub denominator: i64,
}

impl RationalMatrix {
    pub open spec fn wf(&self) -> bool {
        &&& self.numerators.wf()
        &&& self.denominator > 0
    }
}

/// Whether `a / da` and `b / db` are the same rational matrix: the same shape and
/// equal entries as rational numbers.
pub open spec fn same_ratios(a: Seq<Seq<int>>, da: int, b: Seq<Seq<int>>, db: int) -> bool {
    &&& a.len() == b.len()
    &&& forall|r: int| 0 <= r < a.len() ==> #[trigger] a[r].len() == b[r].len()
    &&& forall|r: int, c: int|
        0 <= r < a.len() && 0 <= c < a[r].len() ==> #[trigger] a[r][c] * db == b[r][c] * da
}

/// Rational matrices are equal when they have the same shape and stand for the
/// same rational entries, whatever their denominators.
impl PartialEq for RationalMatrix {
    fn eq(&self, other: &RationalMatrix) -> (r: bool) {
        let a = &self.numerators;
        let b = &other.numerators;
        if a.rows != b.rows || a.columns != b.columns {
            return false;
        }
        if a.data.len() != b.data.len() {
            assert(a@.len() != b@.len());
            return false;
        }
        let da = self.denominator;
        let db = other.denominator;
        let mut i: usize = 0;
        while i < a.data.len()
            invariant
                a == &self.numerators,
                b == &other.numerators,
                da == self.denominator,
                db == other.denominator,
                a.data@.len() == b.data@.len(),
                i <= a.data@.len(),
                forall|q: int| 0 <= q < i ==> #[trigger] a@[q].len() == b@[q].len(),
                forall|q: int, c: int| 0 <= q < i && 0 <= c < a@[q].len() ==> #[trigger] a@[q][c] * db == b@[q][c] * da,
            decreases a.data@.len() - i,
        {
            if a.data[i].len() != b.data[i].len() {
                assert(a@[i as int].len() != b@[i as int].len());
                return false;
            }
            let mut j: usize = 0;
            while j < a.data[i].len()
                invariant
                    a == &self.numerators,
                    b == &other.numerators,
                    da == self.denominator,
                    db == other.denominator,
                    a.data@.len() == b.data@.len(),
                    i < a.data@.len(),
                    a.data@[i as int]@.len() == b.data@[i as int]@.len(),
                    j <= a.data@[i as int]@.len(),
                    forall|c: int| 0 <= c < j ==> #[trigger] a@[i as int][c] * db == b@[i as int][c] * da,
                decreases a.data@[i as int]@.len() - j,
            {
                let x = a.data[i][j];
                let y = b.data[i][j];
                proof {
                    lemma_product_bounds(x as int, db as int);
                    lemma_product_bounds(y as int, da as int);
                }
                if (x as i128) * (db as i128) != (y as i128) * (da as i128) {
                    assert(a@[i as int][j as int] * db != b@[i as int][j as int] * da);
                    return false;
                }
                j = j + 1;
            }
            i = i + 1;
        }
        true
    }
}

impl vstd::std_specs::cmp::PartialEqSpecImpl for RationalMatrix {
    open spec fn obeys_eq_spec() -> bool {
        true
    }

    open spec fn eq_spec(&self, other: &RationalMatrix) -> bool {
        &&& self.numerators.num_rows() == other.numerators.num_rows()
        &&& self.numerators.num_columns() == other.numerators.num_columns()
        &&& same_ratios(self.numerators@, self.denominator as int, other.numerators@, other.denominator as int)
    }
}

/// Every entry of `a` over `d`, rounded to `digits` decimal digits: the numerators over `10^digits`.
pub open spec fn rounded_entries(a: Seq<Seq<int>>, d: int, digits: nat) -> Seq<Seq<int>> {
    a.map_values(|row: Seq<int>| row.map_values(|v: int| round_div(v * pow10(digits), d)))
}

impl RoundTo<RationalMatrix> for RationalMatrix {
    open spec fn can_round_to(&self, digits_after_comma: u8) -> bool {
        &&& self.wf()
        &&& digits_after_comma <= 18
        &&& forall|r: int, c: int|
            0 <= r < self.numerators.num_rows() && 0 <= c < self.numerators.num_columns() ==> can_round_scaled(
                #[trigger] self.numerators@[r][c],
                self.denominator as int,
                digits_after_comma as nat,
            )
    }

    /// Same shape; each entry rounded, over the denominator `10^digits_after_comma`.
    open spec fn is_rounded(&self, digits_after_comma: u8, r: RationalMatrix) -> bool {
        &&& r.wf()
        &&& r.numerators.num_rows() == self.numerators.num_rows()
        &&& r.numerators.num_columns() == self.numerators.num_columns()
        &&& r.denominator == pow10(digits_after_comma as nat)
        &&& r.numerators@ == rounded_entries(self.numerators@, self.denominator as int, digits_after_comma as nat)
    }

    fn round_to(&self, digits_after_comma: u8) -> (r: RationalMatrix) {
        let m = &self.numerators;
        proof {
            m.lemma_view();
            lemma_pow10_bounds(digits_after_comma as nat);
        }
        let mut data: Vec<Vec<i64>> = Vec::new();
        let mut i: usize = 0;
        while i < m.rows
            invariant
                self.can_round_to(digits_after_comma),
                m == &self.numerators,
                i <= m.rows,
                data@.len() == i,
                forall|k: int| 0 <= k < i ==> (#[trigger] data@[k])@.len() == m.columns,
                forall|k: int, j: int|
                    0 <= k < i && 0 <= j < m.columns ==> #[trigger] data@[k]@[j] as int == round_div(
                        m@[k][j] * pow10(digits_after_comma as nat),
                        self.denominator as int,
                    ),
            decreases m.rows - i,
        {
            proof {
                m.lemma_view();
            }
            let mut line: Vec<i64> = Vec::new();
            let mut j: usize = 0;
            while j < m.columns
                invariant
                    self.can_round_to(digits_after_comma),
                    m == &self.numerators,
                    i < m.rows,
                    j <= m.columns,
                    line@.len() == j,
                    forall|k: int| 0 <= k < j ==> #[trigger] line@[k] as int == round_div(
                        m@[i as int][k] * pow10(digits_after_comma as nat),
                        self.denominator as int,
                    ),
                decreases m.columns - j,
            {
                proof {
                    m.lemma_view();
                }
                assert(can_round_scaled(m@[i as int][j as int], self.denominator as int, digits_after_comma as nat));
                line.push(round_scaled(m.data[i][j], self.denominator, digits_after_comma));
                j = j + 1;
            }
            data.push(line);
            i = i + 1;
        }
        let numerators = Matrix { rows: m.rows, columns: m.columns, data };
        assert(numerators@ =~~= rounded_entries(m@, self.denominator as int, digits_after_comma as nat));
        let denominator = power_of_ten(digits_after_comma);
        RationalMatrix { numerators, denominator }
    }
}

} // verus!
