//! The dense matrix: a flat row-major buffer of binary32 bit patterns with
//! row and column extents, and its shape-checked parallel operations.

use vstd::prelude::*;
use rayon::iter::IntoParallelIterator;
use rayon::iter::IntoParallelRefIterator;
use rayon::iter::ParallelIterator;

use crate::MathError;
use crate::scalar::ZERO_BITS;
use crate::scalar::add_bits;
use crate::scalar::mul_bits;
use crate::scalar::add32;
use crate::scalar::mul32;

verus! {

/// A dense matrix of binary32 values, held as their bit patterns in one flat
/// row-major buffer.
#[derive(Clone, Debug)]
pub struct Matrix {
    pub data: Vec<u32>,
    pub rows: usize,
    pub cols: usize,
}

/// The mathematical content of a `Matrix`: the flat row-major element
/// sequence together with the two extents.
pub ghost struct MatView {
    pub elems: Seq<u32>,
    pub rows: int,
    pub cols: int,
}

impl MatView {
    /// The stored element count agrees with the extents.
    pub open spec fn wf(self) -> bool {
        self.rows >= 0 && self.cols >= 0 && self.elems.len() == self.rows * self.cols
    }

    /// The element at row `i`, column `j` of the row-major layout.
    pub open spec fn at(self, i: int, j: int) -> u32 {
        self.elems[i * self.cols + j]
    }
}

impl View for Matrix {
    type V = MatView;

    open spec fn view(&self) -> MatView {
        MatView { elems: self.data@, rows: self.rows as int, cols: self.cols as int }
    }
}

/// A row-major position lies inside the buffer of a well-formed matrix.
pub proof fn lemma_rc_index(m: MatView, i: int, j: int)
    requires
        m.wf(),
        0 <= i < m.rows,
        0 <= j < m.cols,
    ensures
        0 <= i * m.cols + j < m.elems.len(),
{
    assert(i * m.cols + j < m.rows * m.cols) by (nonlinear_arith)
        requires
            0 <= i < m.rows,
            0 <= j < m.cols;
}

/// The elementwise binary32 sum of every element of `s` with `v`: what a
/// sequential pass over the buffer would produce.
pub open spec fn map_add_elems(s: Seq<u32>, v: u32) -> Seq<u32> {
    Seq::new(s.len(), |n: int| add_bits(s[n], v))
}

/// The elementwise binary32 product of every element of `s` with `v`: what a
/// sequential pass over the buffer would produce.
pub open spec fn map_mul_elems(s: Seq<u32>, v: u32) -> Seq<u32> {
    Seq::new(s.len(), |n: int| mul_bits(s[n], v))
}

impl Matrix {
    /// Builds a matrix from a flat row-major buffer, rejecting a buffer whose
    /// length does not match the extents.
    pub fn new(data: Vec<u32>, rows: usize, cols: usize) -> (r: Result<Matrix, MathError>)
        ensures
            match r {
                Ok(m) => data@.len() == rows * cols && m@.wf() && m@.rows == rows
                    && m@.cols == cols && m@.elems == data@,
                Err(e) => e == MathError::ShapeError && data@.len() != rows * cols,
            },
    {
        let len = data.len();
        match rows.checked_mul(cols) {
            Some(p) => {
                if len == p {
                    Ok(Matrix { data, rows, cols })
                } else {
                    Err(MathError::ShapeError)
                }
            }
            None => Err(MathError::ShapeError),
        }
    }

    /// The `(rows, cols)` extents; no side effects.
    pub fn shape(&self) -> (r: (usize, usize))
        ensures
            r.0 == self@.rows,
            r.1 == self@.cols,
    {
        (self.rows, self.cols)
    }

    /// A copy of the backing buffer in row-major order.
    pub fn to_list(&self) -> (r: Vec<u32>)
        ensures
            r@ == self@.elems,
    {
        let n = self.data.len();
        let mut out: Vec<u32> = Vec::new();
        for k in 0..n
            invariant
                n == self.data@.len(),
                out@.len() == k,
                forall|t: int| 0 <= t < k ==> out@[t] == self.data@[t],
        {
            out.push(self.data[k]);
        }
        proof {
            assert(out@ =~= self@.elems);
        }
        out
    }

    /// Elementwise addition of a scalar, computed in parallel: the shape is
    /// kept, and every element of the result is the binary32 sum of the
    /// corresponding element and `v`.
    pub fn scalar_add(&self, v: u32) -> (r: Matrix)
        requires
            self@.wf(),
        ensures
            r@.wf(),
            r@.rows == self@.rows,
            r@.cols == self@.cols,
            r@.elems == map_add_elems(self@.elems, v),
            forall|i: int, j: int| 0 <= i < self@.rows && 0 <= j < self@.cols
                ==> #[trigger] r@.at(i, j) == add_bits(self@.at(i, j), v),
    {
        let new_data = par_map_add(&self.data, v);
        let r = Matrix { data: new_data, rows: self.rows, cols: self.cols };
        proof {
            assert(r@.elems =~= map_add_elems(self@.elems, v));
            assert forall|i: int, j: int| 0 <= i < self@.rows && 0 <= j < self@.cols
                implies #[trigger] r@.at(i, j) == add_bits(self@.at(i, j), v) by {
                lemma_rc_index(self@, i, j);
            }
        }
        r
    }

    /// Elementwise multiplication by a scalar, computed in parallel: the
    /// shape is kept, and every element of the result is the binary32 product
    /// of the corresponding element and `v`.
    pub fn scalar_mul(&self, v: u32) -> (r: Matrix)
        requires
            self@.wf(),
        ensures
            r@.wf(),
            r@.rows == self@.rows,
            r@.cols == self@.cols,
            r@.elems == map_mul_elems(self@.elems, v),
            forall|i: int, j: int| 0 <= i < self@.rows && 0 <= j < self@.cols
                ==> #[trigger] r@.at(i, j) == mul_bits(self@.at(i, j), v),
    {
        let new_data = par_map_mul(&self.data, v);
        let r = Matrix { data: new_data, rows: self.rows, cols: self.cols };
        proof {
            assert(r@.elems =~= map_mul_elems(self@.elems, v));
            assert forall|i: int, j: int| 0 <= i < self@.rows && 0 <= j < self@.cols
                implies #[trigger] r@.at(i, j) == mul_bits(self@.at(i, j), v) by {
                lemma_rc_index(self@, i, j);
            }
        }
        r
    }
}

/// One element of an elementwise scalar addition.
fn add_elem(x: u32, v: u32) -> (r: u32)
    ensures
        r == add_bits(x, v),
{
    add32(x, v)
}

/// One element of an elementwise scalar multiplication.
fn mul_elem(x: u32, v: u32) -> (r: u32)
    ensures
        r == mul_bits(x, v),
{
    mul32(x, v)
}

/// Relies on rayon's parallel iterator over a slice: `map` followed by
/// `collect` into a `Vec` keeps index order, and every element is produced by
/// the verified `add_elem`.
#[verifier::external_body]
fn par_map_add(data: &Vec<u32>, v: u32) -> (r: Vec<u32>)
    ensures
        r@.len() == data@.len(),
        forall|n: int| 0 <= n < data@.len() ==> #[trigger] r@[n] == add_bits(data@[n], v),
{
    data.par_iter().map(|&x| add_elem(x, v)).collect()
}

/// Relies on rayon's parallel iterator over a slice: `map` followed by
/// `collect` into a `Vec` keeps index order, and every element is produced by
/// the verified `mul_elem`.
#[verifier::external_body]
fn par_map_mul(data: &Vec<u32>, v: u32) -> (r: Vec<u32>)
    ensures
        r@.len() == data@.len(),
        forall|n: int| 0 <= n < data@.len() ==> #[trigger] r@[n] == mul_bits(data@[n], v),
{
    data.par_iter().map(|&x| mul_elem(x, v)).collect()
}

/// A strictly earlier row-major position lies below the start of row `i`.
proof fn lemma_row_major_below(t: int, c: int, i: int, w: int)
    requires
        0 <= t < i,
        0 <= c < w,
    ensures
        0 <= t * w + c < i * w,
{
    assert(0 <= t * w + c < i * w) by (nonlinear_arith)
        requires
            0 <= t < i,
            0 <= c < w;
}

/// Concatenates rows of `w` elements each into one flat row-major buffer.
fn flatten_rows(rows_list: &Vec<Vec<u32>>, w: usize) -> (r: Vec<u32>)
    requires
        forall|t: int| 0 <= t < rows_list@.len() ==> (#[trigger] rows_list@[t])@.len() == w,
    ensures
        r@.len() == rows_list@.len() * w,
        forall|t: int, c: int| 0 <= t < rows_list@.len() && 0 <= c < w
            ==> #[trigger] r@[t * w + c] == rows_list@[t]@[c],
{
    let h = rows_list.len();
    let mut flat: Vec<u32> = Vec::new();
    proof {
        assert(0 * w == 0) by (nonlinear_arith);
    }
    for i in 0..h
        invariant
            h == rows_list@.len(),
            forall|t: int| 0 <= t < h ==> (#[trigger] rows_list@[t])@.len() == w,
            flat@.len() == i * w,
            forall|t: int, c: int| 0 <= t < i && 0 <= c < w
                ==> #[trigger] flat@[t * w + c] == rows_list@[t]@[c],
    {
        let row: &Vec<u32> = &rows_list[i];
        for c in 0..w
            invariant
                h == rows_list@.len(),
                i < h,
                forall|t: int| 0 <= t < h ==> (#[trigger] rows_list@[t])@.len() == w,
                row@ == rows_list@[i as int]@,
                flat@.len() == i * w + c,
                forall|t: int, c2: int| 0 <= t < i && 0 <= c2 < w
                    ==> #[trigger] flat@[t * w + c2] == rows_list@[t]@[c2],
                forall|c2: int| 0 <= c2 < c
                    ==> #[trigger] flat@[i * w + c2] == rows_list@[i as int]@[c2],
        {
            flat.push(row[c]);
            proof {
                assert forall|t: int, c2: int| 0 <= t < i && 0 <= c2 < w
                    implies #[trigger] flat@[t * w + c2] == rows_list@[t]@[c2] by {
                    lemma_row_major_below(t, c2, i as int, w as int);
                }
            }
        }
        proof {
            assert((i + 1) * w == i * w + w) by (nonlinear_arith);
        }
    }
    flat
}

/// Column `j` of `a`, which is row `j` of the transpose.
fn transpose_col(a: &Matrix, j: usize) -> (r: Vec<u32>)
    requires
        a@.wf(),
        j < a@.cols,
    ensures
        r@.len() == a@.rows,
        forall|i: int| 0 <= i < a@.rows ==> #[trigger] r@[i] == a@.at(i, j as int),
{
    let rows = a.rows;
    let cols = a.cols;
    let n_elems = a.data.len();
    let mut col: Vec<u32> = Vec::new();
    for i in 0..rows
        invariant
            a@.wf(),
            j < a@.cols,
            rows == a@.rows,
            cols == a@.cols,
            n_elems == a@.elems.len(),
            col@.len() == i,
            forall|t: int| 0 <= t < i ==> #[trigger] col@[t] == a@.at(t, j as int),
    {
        proof {
            lemma_rc_index(a@, i as int, j as int);
        }
        col.push(a.data[i * cols + j]);
    }
    col
}

/// Relies on rayon's parallel iterator over the column indices: `map` with
/// `collect` keeps index order, and each column is produced by the verified
/// `transpose_col`.
#[verifier::external_body]
fn par_transpose_cols(a: &Matrix) -> (r: Vec<Vec<u32>>)
    requires
        a@.wf(),
    ensures
        r@.len() == a@.cols,
        forall|j: int| 0 <= j < a@.cols ==> (#[trigger] r@[j])@.len() == a@.rows,
        forall|j: int, i: int| #![trigger r@[j]@[i]] 0 <= j < a@.cols && 0 <= i < a@.rows
            ==> r@[j]@[i] == a@.at(i, j),
{
    (0..a.cols).into_par_iter().map(|j| transpose_col(a, j)).collect()
}

/// `t` holds the transpose of `a`: swapped extents, swapped elements.
pub open spec fn is_transpose(t: MatView, a: MatView) -> bool {
    &&& t.wf()
    &&& a.wf()
    &&& t.rows == a.cols
    &&& t.cols == a.rows
    &&& forall|i: int, j: int| 0 <= i < a.rows && 0 <= j < a.cols
            ==> #[trigger] t.at(j, i) == a.at(i, j)
}

/// The binary32 value of entry `(i, j)` of the product of `a` and `b` after
/// the first `k` terms of the shared dimension have been accumulated, in the
/// reference order: term `k - 1` is added last.
pub open spec fn mm_entry(a: MatView, b: MatView, i: int, j: int, k: int) -> u32
    decreases k,
{
    if k <= 0 {
        ZERO_BITS
    } else {
        add_bits(mm_entry(a, b, i, j, k - 1), mul_bits(a.at(i, k - 1), b.at(k - 1, j)))
    }
}

/// Row `i` of the product of `a` and `b`, accumulated in the reference
/// order: over the shared dimension first, then the output column.
fn matmul_row(a: &Matrix, b: &Matrix, i: usize) -> (r: Vec<u32>)
    requires
        a@.wf(),
        b@.wf(),
        a@.cols == b@.rows,
        i < a@.rows,
    ensures
        r@.len() == b@.cols,
        forall|j: int| 0 <= j < b@.cols
            ==> #[trigger] r@[j] == mm_entry(a@, b@, i as int, j, a@.cols),
{
    let m = a.cols;
    let p = b.cols;
    let na = a.data.len();
    let nb = b.data.len();
    let mut row: Vec<u32> = Vec::new();
    for j in 0..p
        invariant
            row@.len() == j,
            forall|t: int| 0 <= t < j ==> #[trigger] row@[t] == ZERO_BITS,
    {
        row.push(ZERO_BITS);
    }
    for k in 0..m
        invariant
            a@.wf(),
            b@.wf(),
            a@.cols == b@.rows,
            i < a@.rows,
            m == a@.cols,
            p == b@.cols,
            na == a@.elems.len(),
            nb == b@.elems.len(),
            row@.len() == p,
            forall|t: int| 0 <= t < p
                ==> #[trigger] row@[t] == mm_entry(a@, b@, i as int, t, k as int),
    {
        proof {
            lemma_rc_index(a@, i as int, k as int);
        }
        let va = a.data[i * m + k];
        for j in 0..p
            invariant
                a@.wf(),
                b@.wf(),
                a@.cols == b@.rows,
                i < a@.rows,
                k < m,
                m == a@.cols,
                p == b@.cols,
                na == a@.elems.len(),
                nb == b@.elems.len(),
                va == a@.at(i as int, k as int),
                row@.len() == p,
                forall|t: int| 0 <= t < j
                    ==> #[trigger] row@[t] == mm_entry(a@, b@, i as int, t, k as int + 1),
                forall|t: int| j <= t < p
                    ==> #[trigger] row@[t] == mm_entry(a@, b@, i as int, t, k as int),
        {
            proof {
                lemma_rc_index(b@, k as int, j as int);
            }
            let vb = b.data[k * p + j];
            let old_val = row[j];
            row.set(j, add32(old_val, mul32(va, vb)));
        }
    }
    row
}

/// Relies on rayon's parallel iterator over the row indices: `map` with
/// `collect` keeps index order, and each row is produced by the verified
/// `matmul_row`.
#[verifier::external_body]
fn par_matmul_rows(a: &Matrix, b: &Matrix) -> (r: Vec<Vec<u32>>)
    requires
        a@.wf(),
        b@.wf(),
        a@.cols == b@.rows,
    ensures
        r@.len() == a@.rows,
        forall|i: int| 0 <= i < a@.rows ==> (#[trigger] r@[i])@.len() == b@.cols,
        forall|i: int, j: int| #![trigger r@[i]@[j]] 0 <= i < a@.rows && 0 <= j < b@.cols
            ==> r@[i]@[j] == mm_entry(a@, b@, i, j, a@.cols),
{
    (0..a.rows).into_par_iter().map(|i| matmul_row(a, b, i)).collect()
}

impl Matrix {
    /// The transpose, computed one output column per parallel task: the
    /// extents are swapped and entry `(j, i)` of the result is entry `(i, j)`
    /// of `self`.
    pub fn transpose(&self) -> (r: Matrix)
        requires
            self@.wf(),
        ensures
            is_transpose(r@, self@),
    {
        let cols_list = par_transpose_cols(self);
        let flat = flatten_rows(&cols_list, self.rows);
        let r = Matrix { data: flat, rows: self.cols, cols: self.rows };
        proof {
            assert(r@.elems.len() == self@.cols * self@.rows);
            assert(r@.wf());
            assert forall|i: int, j: int| 0 <= i < self@.rows && 0 <= j < self@.cols
                implies #[trigger] r@.at(j, i) == self@.at(i, j) by {
                lemma_rc_index(r@, j, i);
                assert(flat@[j * self@.rows + i] == cols_list@[j]@[i]);
            }
        }
        r
    }

    /// The matrix product, computed one output row per parallel task.
    /// Succeeds exactly when the inner extents agree; the result has shape
    /// `(self.rows, other.cols)` and entry `(i, j)` holds the binary32 dot
    /// product of row `i` of `self` and column `j` of `other`, accumulated
    /// over the shared dimension in increasing order.
    pub fn matmul(&self, other: &Matrix) -> (r: Result<Matrix, MathError>)
        requires
            self@.wf(),
            other@.wf(),
            self@.rows * other@.cols <= usize::MAX,
        ensures
            match r {
                Ok(c) => self@.cols == other@.rows && c@.wf()
                    && c@.rows == self@.rows && c@.cols == other@.cols
                    && forall|i: int, j: int| 0 <= i < self@.rows && 0 <= j < other@.cols
                        ==> #[trigger] c@.at(i, j) == mm_entry(self@, other@, i, j, self@.cols),
                Err(e) => e == MathError::ShapeMismatchError && self@.cols != other@.rows,
            },
    {
        if self.cols != other.rows {
            return Err(MathError::ShapeMismatchError);
        }
        let rows_list = par_matmul_rows(self, other);
        let flat = flatten_rows(&rows_list, other.cols);
        let c = Matrix { data: flat, rows: self.rows, cols: other.cols };
        proof {
            assert(c@.wf());
            assert forall|i: int, j: int| 0 <= i < self@.rows && 0 <= j < other@.cols
                implies #[trigger] c@.at(i, j) == mm_entry(self@, other@, i, j, self@.cols) by {
                lemma_rc_index(c@, i, j);
                assert(flat@[i * other@.cols + j] == rows_list@[i]@[j]);
            }
        }
        Ok(c)
    }
}

/// Transposing a matrix twice gives back the original matrix: whenever `t`
/// is the transpose of `a` and `tt` is the transpose of `t`, `tt` equals `a`
/// element for element, extents included.
pub proof fn lemma_transpose_involution(a: MatView, t: MatView, tt: MatView)
    requires
        is_transpose(t, a),
        is_transpose(tt, t),
    ensures
        tt == a,
{
    assert(tt.rows == a.rows);
    assert(tt.cols == a.cols);
    assert(tt.elems.len() == a.elems.len());
    assert forall|n: int| 0 <= n < a.elems.len() implies tt.elems[n] == a.elems[n] by {
        let c = a.cols;
        if c > 0 {
            let i = n / c;
            let j = n % c;
            vstd::arithmetic::div_mod::lemma_fundamental_div_mod(n, c);
            vstd::arithmetic::div_mod::lemma_mod_division_less_than_divisor(n, c);
            assert(0 <= j < c);
            assert(n == c * i + j);
            assert(0 <= i < a.rows) by (nonlinear_arith)
                requires
                    c > 0,
                    0 <= j < c,
                    n == c * i + j,
                    0 <= n < a.rows * c;
            assert(i * c + j == n) by (nonlinear_arith)
                requires
                    n == c * i + j;
            assert(a.at(i, j) == a.elems[n]);
            assert(tt.at(i, j) == t.at(j, i));
            assert(t.at(j, i) == a.at(i, j));
            assert(tt.at(i, j) == tt.elems[n]);
        } else {
            assert(a.elems.len() == a.rows * 0);
            assert(a.elems.len() == 0) by (nonlinear_arith)
                requires
                    a.elems.len() == a.rows * 0;
        }
    }
    assert(tt.elems =~= a.elems);
}

/// A parallel elementwise pass is equivalent to the sequential reference:
/// any two results of the same scalar operation on the same matrix — the
/// elementwise maps that `scalar_add` and `scalar_mul` ensure — are equal,
/// so the worker partitioning cannot influence the outcome.
pub proof fn lemma_scalar_op_deterministic(a: MatView, v: u32, r1: MatView, r2: MatView)
    requires
        r1.rows == a.rows && r1.cols == a.cols,
        r2.rows == a.rows && r2.cols == a.cols,
        (r1.elems == map_add_elems(a.elems, v) && r2.elems == map_add_elems(a.elems, v))
            || (r1.elems == map_mul_elems(a.elems, v) && r2.elems == map_mul_elems(a.elems, v)),
    ensures
        r1 == r2,
{
}

} // verus!
