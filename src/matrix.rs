//! Matrices of `i64` whose shape is carried in their contracts.
//!
//! A product is admitted only where the inner dimensions agree, and a
//! determinant only on a square matrix; no shape is checked at run time.
use vstd::prelude::*;

verus! {

/// What a `Matrix` stands for: its shape and its entries, row by row.
pub struct MatrixModel {
    pub rows: nat,
    pub cols: nat,
    pub cells: Seq<Seq<int>>,
}

impl MatrixModel {
    /// `rows` rows of `cols` entries each.
    pub open spec fn shaped(self) -> bool {
        &&& self.cells.len() == self.rows
        &&& forall|i: int| 0 <= i < self.rows ==> (#[trigger] self.cells[i]).len() == self.cols
    }
}

/// `x` is representable as an `i64`.
pub open spec fn in_i64(x: int) -> bool {
    i64::MIN <= x <= i64::MAX
}

/// The first `k` terms of the dot product of row `i` of `a` and column `j` of `b`.
pub open spec fn dot_prefix(a: Seq<Seq<int>>, b: Seq<Seq<int>>, i: int, j: int, k: int) -> int
    decreases k,
{
    if k <= 0 {
        0
    } else {
        dot_prefix(a, b, i, j, k - 1) + a[i][k - 1] * b[k - 1][j]
    }
}

/// The row-by-column product of `a` and `b`.
pub open spec fn product_model(a: MatrixModel, b: MatrixModel) -> MatrixModel {
    MatrixModel {
        rows: a.rows,
        cols: b.cols,
        cells: Seq::new(
            a.rows,
            |i: int| Seq::new(b.cols, |j: int| dot_prefix(a.cells, b.cells, i, j, a.cols as int)),
        ),
    }
}

/// Every product and partial sum met while multiplying `a` by `b` fits in an `i64`.
pub open spec fn product_fits(a: MatrixModel, b: MatrixModel) -> bool {
    forall|i: int, j: int, k: int|
        #![trigger dot_prefix(a.cells, b.cells, i, j, k + 1)]
        0 <= i < a.rows && 0 <= j < b.cols && 0 <= k < a.cols ==> {
            &&& in_i64(a.cells[i][k] * b.cells[k][j])
            &&& in_i64(dot_prefix(a.cells, b.cells, i, j, k + 1))
        }
}

/// Every entry of `a` multiplied by `k`.
pub open spec fn scaled_model(a: MatrixModel, k: int) -> MatrixModel {
    MatrixModel {
        rows: a.rows,
        cols: a.cols,
        cells: Seq::new(a.rows, |i: int| Seq::new(a.cols, |j: int| k * a.cells[i][j])),
    }
}

/// Every entry of `a` multiplied by `k` fits in an `i64`.
pub open spec fn scale_fits(a: MatrixModel, k: int) -> bool {
    forall|i: int, j: int| 0 <= i < a.rows && 0 <= j < a.cols ==> in_i64(k * #[trigger] a.cells[i][j])
}

/// `+1` for an even column, `-1` for an odd one.
pub open spec fn cofactor_sign(j: int) -> int {
    if j % 2 == 0 {
        1
    } else {
        -1
    }
}

/// The square matrix `m` without its first row and without column `col`.
pub open spec fn minor(m: Seq<Seq<int>>, col: int) -> Seq<Seq<int>> {
    Seq::new(
        (m.len() - 1) as nat,
        |i: int|
            Seq::new(
                (m.len() - 1) as nat,
                |j: int|
                    if j < col {
                        m[i + 1][j]
                    } else {
                        m[i + 1][j + 1]
                    },
            ),
    )
}

/// The `j`-th term of the cofactor expansion of `m` along its first row.
pub open spec fn cofactor_term(m: Seq<Seq<int>>, j: int) -> int
    decreases m.len(), 0int,
{
    if 1 < m.len() && 0 <= j < m.len() {
        cofactor_sign(j) * (m[0][j] * det(minor(m, j)))
    } else {
        0
    }
}

/// The first `k` terms of the cofactor expansion of `m` along its first row.
pub open spec fn cofactor_sum(m: Seq<Seq<int>>, k: int) -> int
    decreases m.len(), k + 1,
{
    if k <= 0 || m.len() <= 1 {
        0
    } else {
        cofactor_sum(m, k - 1) + cofactor_term(m, k - 1)
    }
}

/// The determinant of the square matrix `m`, by cofactor expansion along the
/// first row with signs alternating `+, -, +, ...` by column; a `1 x 1`
/// matrix's determinant is its entry.
pub open spec fn det(m: Seq<Seq<int>>) -> int
    decreases m.len(), m.len() + 2,
{
    if m.len() == 0 {
        1
    } else if m.len() == 1 {
        m[0][0]
    } else {
        cofactor_sum(m, m.len() as int)
    }
}

/// Every product and partial sum met while expanding the determinant of `m`,
/// at every level of the recursion, fits in an `i64`.
pub open spec fn det_fits(m: Seq<Seq<int>>) -> bool
    decreases m.len(),
{
    if m.len() <= 1 {
        true
    } else {
        forall|j: int|
            #![trigger minor(m, j)]
            0 <= j < m.len() ==> {
                &&& det_fits(minor(m, j))
                &&& in_i64(m[0][j] * det(minor(m, j)))
                &&& in_i64(cofactor_sum(m, j + 1))
            }
    }
}

/// A matrix of `i64` with a fixed number of rows and columns, stored row by row.
pub struct Matrix {
    rows: usize,
    cols: usize,
    inner: Vec<Vec<i64>>,
}

/// The entries of a row, as integers.
pub open spec fn row_cells(row: Vec<i64>) -> Seq<int> {
    row@.map_values(|x: i64| x as int)
}

impl View for Matrix {
    type V = MatrixModel;

    closed spec fn view(&self) -> MatrixModel {
        MatrixModel {
            rows: self.rows as nat,
            cols: self.cols as nat,
            cells: self.inner@.map_values(|row: Vec<i64>| row_cells(row)),
        }
    }
}

impl Matrix {
    #[verifier::type_invariant]
    spec fn inv(self) -> bool {
        &&& self.inner@.len() == self.rows
        &&& forall|i: int| 0 <= i < self.rows ==> (#[trigger] self.inner@[i])@.len() == self.cols
    }

    /// The `rows x cols` matrix whose rows are `data`; each row must hold
    /// `cols` entries.
    pub fn from_rows(data: Vec<Vec<i64>>, cols: usize) -> (r: Matrix)
        requires
            forall|i: int| 0 <= i < data@.len() ==> (#[trigger] data@[i])@.len() == cols,
        ensures
            r@.shaped(),
            r@.rows == data@.len(),
            r@.cols == cols,
            forall|i: int, j: int|
                0 <= i < r@.rows && 0 <= j < cols ==> r@.cells[i][j] == (#[trigger] data@[i]@[j]) as int,
    {
        Matrix { rows: data.len(), cols, inner: data }
    }

    /// The number of rows; every matrix is shaped as it says, with entries
    /// in the `i64` range.
    pub fn rows(&self) -> (r: usize)
        ensures
            r == self@.rows,
            self@.shaped(),
            forall|i: int, j: int|
                0 <= i < self@.rows && 0 <= j < self@.cols ==> in_i64(#[trigger] self@.cells[i][j]),
    {
        proof {
            use_type_invariant(self);
        }
        self.rows
    }

    /// The number of columns; every matrix is shaped as it says, with entries
    /// in the `i64` range.
    pub fn cols(&self) -> (r: usize)
        ensures
            r == self@.cols,
            self@.shaped(),
            forall|i: int, j: int|
                0 <= i < self@.rows && 0 <= j < self@.cols ==> in_i64(#[trigger] self@.cells[i][j]),
    {
        proof {
            use_type_invariant(self);
        }
        self.cols
    }

    /// The entry in row `i` and column `j`.
    pub fn get(&self, i: usize, j: usize) -> (r: i64)
        requires
            i < self@.rows,
            j < self@.cols,
        ensures
            r == self@.cells[i as int][j as int],
    {
        proof {
            use_type_invariant(self);
        }
        self.inner[i][j]
    }

    /// The row-by-column product of `self` and `rhs`.
    ///
    /// Admitted only where the columns of `self` are as many as the rows of
    /// `rhs`, and where no product or partial sum leaves the `i64` range.
    pub fn mul(self, rhs: Matrix) -> (r: Matrix)
        requires
            self@.cols == rhs@.rows,
            product_fits(self@, rhs@),
        ensures
            r@ == product_model(self@, rhs@),
    {
        proof {
            use_type_invariant(&self);
            use_type_invariant(&rhs);
        }
        let ghost a = self@;
        let ghost b = rhs@;
        let mut out: Vec<Vec<i64>> = Vec::new();
        let mut i: usize = 0;
        while i < self.rows
            invariant
                a == self@,
                b == rhs@,
                a.shaped(),
                b.shaped(),
                a.cols == b.rows,
                product_fits(a, b),
                i <= a.rows,
                out@.len() == i,
                forall|p: int|
                    0 <= p < i ==> row_cells(#[trigger] out@[p]) == product_model(a, b).cells[p],
            decreases a.rows - i,
        {
            let mut row: Vec<i64> = Vec::new();
            let mut j: usize = 0;
            while j < rhs.cols
                invariant
                    a == self@,
                    b == rhs@,
                    a.shaped(),
                    b.shaped(),
                    a.cols == b.rows,
                    product_fits(a, b),
                    i < a.rows,
                    j <= b.cols,
                    row@.len() == j,
                    forall|q: int|
                        0 <= q < j ==> (#[trigger] row@[q]) as int == dot_prefix(
                            a.cells,
                            b.cells,
                            i as int,
                            q,
                            a.cols as int,
                        ),
                decreases b.cols - j,
            {
                let mut acc: i64 = 0;
                let mut k: usize = 0;
                while k < self.cols
                    invariant
                        a == self@,
                        b == rhs@,
                        a.shaped(),
                        b.shaped(),
                        a.cols == b.rows,
                        product_fits(a, b),
                        i < a.rows,
                        j < b.cols,
                        k <= a.cols,
                        acc as int == dot_prefix(a.cells, b.cells, i as int, j as int, k as int),
                    decreases a.cols - k,
                {
                    assert(in_i64(dot_prefix(a.cells, b.cells, i as int, j as int, k + 1)));
                    assert(in_i64(a.cells[i as int][k as int] * b.cells[k as int][j as int]));
                    let p = self.inner[i][k] * rhs.inner[k][j];
                    acc = acc + p;
                    k = k + 1;
                }
                row.push(acc);
                j = j + 1;
            }
            assert(row_cells(row) =~= product_model(a, b).cells[i as int]);
            out.push(row);
            i = i + 1;
        }
        let r = Matrix { rows: self.rows, cols: rhs.cols, inner: out };
        assert(r@.cells =~= product_model(a, b).cells);
        r
    }

    /// Every entry multiplied by `k`; the shape is unchanged.
    ///
    /// Admitted only where no such product leaves the `i64` range.
    pub fn scale(self, k: i64) -> (r: Matrix)
        requires
            scale_fits(self@, k as int),
        ensures
            r@ == scaled_model(self@, k as int),
    {
        proof {
            use_type_invariant(&self);
        }
        let ghost a = self@;
        let mut out: Vec<Vec<i64>> = Vec::new();
        let mut i: usize = 0;
        while i < self.rows
            invariant
                a == self@,
                a.shaped(),
                scale_fits(a, k as int),
                i <= a.rows,
                out@.len() == i,
                forall|p: int|
                    0 <= p < i ==> row_cells(#[trigger] out@[p]) == scaled_model(a, k as int).cells[p],
            decreases a.rows - i,
        {
            let mut row: Vec<i64> = Vec::new();
            let mut j: usize = 0;
            while j < self.cols
                invariant
                    a == self@,
                    a.shaped(),
                    scale_fits(a, k as int),
                    i < a.rows,
                    j <= a.cols,
                    row@.len() == j,
                    forall|q: int|
                        0 <= q < j ==> (#[trigger] row@[q]) as int == k * a.cells[i as int][q],
                decreases a.cols - j,
            {
                assert(in_i64(k * a.cells[i as int][j as int]));
                row.push(k * self.inner[i][j]);
                j = j + 1;
            }
            assert(row_cells(row) =~= scaled_model(a, k as int).cells[i as int]);
            out.push(row);
            i = i + 1;
        }
        let r = Matrix { rows: self.rows, cols: self.cols, inner: out };
        assert(r@.cells =~= scaled_model(a, k as int).cells);
        r
    }

    /// The square matrix without its first row and without column `col`.
    fn minor(&self, col: usize) -> (r: Matrix)
        requires
            self@.rows == self@.cols,
            1 <= self@.rows,
            col < self@.cols,
        ensures
            r@.rows == self@.rows - 1,
            r@.cols == self@.cols - 1,
            r@.cells == minor(self@.cells, col as int),
    {
        proof {
            use_type_invariant(self);
        }
        let ghost m = self@.cells;
        let n = self.rows;
        let mut out: Vec<Vec<i64>> = Vec::new();
        let mut i: usize = 1;
        while i < n
            invariant
                m == self@.cells,
                self@.shaped(),
                n == self@.rows,
                n == self@.cols,
                col < n,
                1 <= i <= n,
                out@.len() == i - 1,
                forall|p: int| 0 <= p < i - 1 ==> row_cells(#[trigger] out@[p]) == minor(m, col as int)[p],
            decreases n - i,
        {
            assert(self@.cells[i as int].len() == n);
            let mut row: Vec<i64> = Vec::new();
            let mut j: usize = 0;
            while j < n
                invariant
                    m == self@.cells,
                    self@.shaped(),
                    n == self@.rows,
                    n == self@.cols,
                    col < n,
                    1 <= i < n,
                    j <= n,
                    self.inner@[i as int]@.len() == n,
                    row@.len() == if j <= col { j as int } else { j - 1 },
                    forall|q: int|
                        0 <= q < row@.len() ==> (#[trigger] row@[q]) as int == (if q < col {
                            m[i as int][q]
                        } else {
                            m[i as int][q + 1]
                        }),
                decreases n - j,
            {
                if j != col {
                    row.push(self.inner[i][j]);
                }
                j = j + 1;
            }
            assert(row_cells(row) =~= minor(m, col as int)[i - 1]);
            out.push(row);
            i = i + 1;
        }
        let r = Matrix { rows: n - 1, cols: n - 1, inner: out };
        assert(r@.cells =~= minor(m, col as int));
        r
    }

    /// The determinant of a square matrix, by cofactor expansion along the
    /// first row with signs alternating `+, -, +, ...` by column.
    ///
    /// Admitted only on a square matrix with at least one row, and where no
    /// product or partial sum of the expansion leaves the `i64` range.
    pub fn determinant(&self) -> (r: i64)
        requires
            self@.rows == self@.cols,
            1 <= self@.rows,
            det_fits(self@.cells),
        ensures
            r == det(self@.cells),
        decreases self@.rows,
    {
        proof {
            use_type_invariant(self);
        }
        let ghost m = self@.cells;
        let n = self.rows;
        if n == 1 {
            return self.inner[0][0];
        }
        let mut acc: i64 = 0;
        let mut j: usize = 0;
        while j < n
            invariant
                m == self@.cells,
                self@.shaped(),
                n == self@.rows,
                n == self@.cols,
                2 <= n,
                det_fits(m),
                j <= n,
                acc as int == cofactor_sum(m, j as int),
            decreases n - j,
        {
            let sub = self.minor(j);
            assert(det_fits(minor(m, j as int)));
            let d = sub.determinant();
            assert(in_i64(m[0][j as int] * det(minor(m, j as int))));
            assert(in_i64(cofactor_sum(m, j + 1)));
            let p = self.inner[0][j] * d;
            assert(cofactor_sum(m, j + 1) == cofactor_sum(m, j as int) + cofactor_term(m, j as int));
            assert(cofactor_term(m, j as int) == cofactor_sign(j as int) * p);
            if j % 2 == 0 {
                acc = acc + p;
            } else {
                assert(cofactor_term(m, j as int) == -(p as int)) by {
                    assert(cofactor_sign(j as int) == -1);
                    assert(-1 * (p as int) == -(p as int)) by (nonlinear_arith);
                }
                acc = acc - p;
            }
            j = j + 1;
        }
        acc
    }
}

/// The product of an `r x n` and an `n x c` matrix is an `r x c` matrix.
pub proof fn lemma_product_shape(a: MatrixModel, b: MatrixModel)
    requires
        a.shaped(),
        b.shaped(),
        a.cols == b.rows,
    ensures
        product_model(a, b).rows == a.rows,
        product_model(a, b).cols == b.cols,
        product_model(a, b).shaped(),
{
}

/// The determinant of `[[a]]` is `a`, and that of `[[a, b], [c, d]]` is
/// `a * d - b * c`.
pub proof fn lemma_det_small(a: int, b: int, c: int, d: int)
    ensures
        det(seq![seq![a]]) == a,
        det(seq![seq![a, b], seq![c, d]]) == a * d - b * c,
{
    let m = seq![seq![a, b], seq![c, d]];
    assert(minor(m, 0) =~~= seq![seq![d]]);
    assert(minor(m, 1) =~~= seq![seq![c]]);
    assert(det(minor(m, 0)) == d);
    assert(det(minor(m, 1)) == c);
    assert(m[0][0] == a && m[0][1] == b);
    assert(cofactor_sign(0) == 1 && cofactor_sign(1) == -1);
    assert(cofactor_term(m, 0) == a * d);
    assert(cofactor_term(m, 1) == -(b * c));
    assert(cofactor_sum(m, 0) == 0);
    assert(cofactor_sum(m, 1) == a * d);
    assert(cofactor_sum(m, 2) == a * d - b * c);
}

} // verus!
