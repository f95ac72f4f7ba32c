//! Statically shaped matrices for allocation-averse applications
//!
//! This library provides support for creating and performing mathematical
//! operations on matrices whose dimensions are fixed when the matrix is
//! built and never change afterwards. Shape compatibility is enforced when
//! an operation node is constructed, before any element can be requested:
//! a mismatched sum or product never yields a usable value.
//!
//! All operations except element access are lazy and perform no actual
//! computation. An expression like a product of two matrices simply builds
//! an *expression tree*; `get` forces the evaluation of one element of such
//! a tree, computing exactly the values that element needs and allocating
//! no intermediate storage.

use vstd::prelude::*;

pub mod lemmas;
pub mod traits;

use traits::Matrix;
use traits::UnsafeGet;
use traits::Zero;

verus! {

/// Dimension-mismatch diagnostic of the literal construction utility:
/// row `row` holds `found` elements where `expected` were required.
#[derive(Clone, Copy, Debug, PartialEq, Eq, Structural)]
pub struct LiteralError {
    /// Index of the first row whose element count disagrees with row 0's.
    pub row: usize,
    /// The expected element count: that of row 0.
    pub expected: usize,
    /// The element count found in row `row`.
    pub found: usize,
}

/// Statically shaped (row major order) matrix: the only component that owns
/// real element data.
#[derive(Clone)]
pub struct Mat {
    buffer: Vec<i64>,
    rows: usize,
    cols: usize,
}

/// Row view into a `Mat`rix
pub struct Row<'a> {
    m: &'a Mat,
    r: usize,
}

impl<'a> Row<'a> {
    /// The matrix the view reads.
    pub closed spec fn spec_mat(self) -> Mat {
        *self.m
    }

    /// The index of the viewed row.
    pub closed spec fn spec_row(self) -> int {
        self.r as int
    }

    /// The view reads a row that its matrix has.
    pub closed spec fn wf(self) -> bool {
        self.m.wf() && self.r < self.m.spec_rows()
    }

    /// Returns the number of elements of the viewed row.
    pub fn len(&self) -> (n: usize)
        requires
            self.wf(),
        ensures
            n == self.spec_mat().spec_cols(),
    {
        self.m.ncols()
    }

    /// Returns the element at column `c` of the viewed row.
    pub fn index(&self, c: usize) -> (e: i64)
        requires
            self.wf(),
            c < self.spec_mat().spec_cols(),
        ensures
            e == self.spec_mat().spec_get(self.spec_row(), c as int),
    {
        self.m.unsafe_get(self.r, c)
    }
}

/// The product of two matrices
///
/// Evaluation is possible only where [`UnsafeGet::wf`] holds, which ties the
/// left operand's column count to the right operand's row count; the checked
/// constructors establish it.
#[derive(Clone, Copy)]
pub struct Product<L, R> {
    /// Left operand.
    pub l: L,
    /// Right operand.
    pub r: R,
}

/// The sum of two matrices
///
/// Evaluation is possible only where [`UnsafeGet::wf`] holds, which makes
/// the operands' dimensions identical; the checked constructors establish
/// it.
#[derive(Clone, Copy)]
pub struct Sum<L, R> {
    /// Left operand.
    pub l: L,
    /// Right operand.
    pub r: R,
}

/// The transpose of a matrix
#[derive(Clone, Copy)]
pub struct Transpose<M> {
    /// The wrapped operand.
    pub m: M,
}

/// The linear offset of position (`r`, `c`) in a row-major buffer of
/// `rows` by `cols` elements lies within the buffer.
proof fn lemma_row_major_index(rows: int, cols: int, r: int, c: int)
    requires
        0 <= r < rows,
        0 <= c < cols,
    ensures
        0 <= r * cols + c < rows * cols,
{
    assert(r * cols + c < rows * cols) by (nonlinear_arith)
        requires
            0 <= r < rows,
            0 <= c < cols,
    ;
}

/// Distinct in-bounds positions have distinct row-major offsets.
proof fn lemma_row_major_injective(cols: int, r1: int, c1: int, r2: int, c2: int)
    requires
        0 <= c1 < cols,
        0 <= c2 < cols,
        0 <= r1,
        0 <= r2,
        r1 * cols + c1 == r2 * cols + c2,
    ensures
        r1 == r2 && c1 == c2,
{
    assert(r1 == r2 && c1 == c2) by (nonlinear_arith)
        requires
            0 <= c1 < cols,
            0 <= c2 < cols,
            0 <= r1,
            0 <= r2,
            r1 * cols + c1 == r2 * cols + c2,
    ;
}

/// Constructs a `Mat`rix from a sequence of rows of elements.
///
/// Every row must hold as many elements as row 0; the first row that
/// disagrees is reported in a [`LiteralError`] naming the expected element
/// count, and no matrix value is produced. A validated input is flattened
/// into row-major order and handed to [`Mat::new`].
pub fn mat(rows: Vec<Vec<i64>>) -> (res: Result<Mat, LiteralError>)
    requires
        rows@.len() >= 1,
    ensures
        res matches Ok(m) ==> {
            &&& forall|i: int| 0 <= i < rows@.len() ==> #[trigger] rows@[i]@.len() == rows@[0]@.len()
            &&& m.wf()
            &&& m.spec_rows() == rows@.len()
            &&& m.spec_cols() == rows@[0]@.len()
            &&& forall|r: int, c: int|
                0 <= r < rows@.len() && 0 <= c < rows@[0]@.len() ==> #[trigger] m.spec_get(r, c)
                    == rows@[r]@[c]
            &&& forall|r: int, c: int| #[trigger] m.in_range(r, c)
        },
        res matches Err(e) ==> {
            &&& 0 < e.row < rows@.len()
            &&& e.expected == rows@[0]@.len()
            &&& e.found == rows@[e.row as int]@.len()
            &&& e.found != e.expected
            &&& forall|i: int| 0 <= i < e.row ==> #[trigger] rows@[i]@.len() == rows@[0]@.len()
        },
{
    let nrows: usize = rows.len();
    let ncols: usize = rows[0].len();
    let mut i: usize = 1;
    while i < nrows
        invariant
            1 <= i <= nrows,
            nrows == rows@.len(),
            ncols == rows@[0]@.len(),
            forall|j: int| 0 <= j < i ==> #[trigger] rows@[j]@.len() == ncols,
        decreases nrows - i,
    {
        let found: usize = rows[i].len();
        if found != ncols {
            return Err(LiteralError { row: i, expected: ncols, found });
        }
        i = i + 1;
    }
    let mut buffer: Vec<i64> = Vec::new();
    let mut r: usize = 0;
    while r < nrows
        invariant
            r <= nrows,
            nrows == rows@.len(),
            ncols == rows@[0]@.len(),
            forall|j: int| 0 <= j < nrows ==> #[trigger] rows@[j]@.len() == ncols,
            buffer@.len() == r * ncols,
            forall|a: int, b: int|
                0 <= a < r && 0 <= b < ncols ==> buffer@[a * ncols + b] == #[trigger] rows@[a]@[b],
        decreases nrows - r,
    {
        let mut c: usize = 0;
        while c < ncols
            invariant
                c <= ncols,
                r < nrows,
                nrows == rows@.len(),
                ncols == rows@[0]@.len(),
                forall|j: int| 0 <= j < nrows ==> #[trigger] rows@[j]@.len() == ncols,
                buffer@.len() == r * ncols + c,
                forall|a: int, b: int|
                    0 <= a < r && 0 <= b < ncols ==> buffer@[a * ncols + b] == #[trigger] rows@[a]@[b],
                forall|b: int| 0 <= b < c ==> buffer@[r * ncols + b] == #[trigger] rows@[r as int]@[b],
            decreases ncols - c,
        {
            buffer.push(rows[r][c]);
            proof {
                assert forall|a: int, b: int|
                    0 <= a < r && 0 <= b < ncols implies buffer@[a * ncols + b] == #[trigger] rows@[a]@[b] by {
                    lemma_row_major_index(r as int, ncols as int, a, b);
                }
            }
            c = c + 1;
        }
        proof {
            assert((r + 1) * ncols == r * ncols + ncols) by (nonlinear_arith);
        }
        r = r + 1;
    }
    let m = Mat::new(buffer, nrows, ncols);
    Ok(m)
}

impl Mat {
    /// Builds a matrix from an already validated row-major buffer of exactly
    /// `rows` times `cols` elements. Validating a literal is the job of
    /// [`mat`], which calls this constructor with a buffer it has checked.
    pub fn new(buffer: Vec<i64>, rows: usize, cols: usize) -> (m: Mat)
        requires
            buffer@.len() == rows * cols,
        ensures
            m.wf(),
            m.spec_rows() == rows,
            m.spec_cols() == cols,
            forall|r: int, c: int|
                0 <= r < rows && 0 <= c < cols ==> m.spec_get(r, c) == buffer@[r * cols + c],
            forall|r: int, c: int| #[trigger] m.in_range(r, c),
    {
        Mat { buffer, rows, cols }
    }

    /// Returns a read-only view of row `r`.
    pub fn row(&self, r: usize) -> (row: Row<'_>)
        requires
            self.wf(),
            r < self.spec_rows(),
        ensures
            row.wf(),
            row.spec_mat() == *self,
            row.spec_row() == r,
    {
        Row { m: self, r }
    }

    /// Writes `v` at row `r`, column `c`; every other element is unchanged.
    pub fn set(&mut self, r: usize, c: usize, v: i64)
        requires
            old(self).wf(),
            r < old(self).spec_rows(),
            c < old(self).spec_cols(),
        ensures
            final(self).wf(),
            final(self).spec_rows() == old(self).spec_rows(),
            final(self).spec_cols() == old(self).spec_cols(),
            final(self).spec_get(r as int, c as int) == v,
            forall|a: int, b: int|
                0 <= a < old(self).spec_rows() && 0 <= b < old(self).spec_cols() && !(a == r && b
                    == c) ==> final(self).spec_get(a, b) == old(self).spec_get(a, b),
            forall|a: int, b: int| #[trigger] final(self).in_range(a, b),
    {
        let n: usize = self.buffer.len();
        proof {
            lemma_row_major_index(self.rows as int, self.cols as int, r as int, c as int);
        }
        let i: usize = r * self.cols + c;
        self.buffer.set(i, v);
        proof {
            assert forall|a: int, b: int|
                0 <= a < self.rows && 0 <= b < self.cols && !(a == r && b == c) implies #[trigger] self.spec_get(
                a,
                b,
            ) == old(self).spec_get(a, b) by {
                lemma_row_major_index(self.rows as int, self.cols as int, a, b);
                if a * self.cols + b == i {
                    lemma_row_major_injective(self.cols as int, a, b, r as int, c as int);
                }
            }
        }
    }
}

impl UnsafeGet for Mat {
    closed spec fn spec_rows(&self) -> nat {
        self.rows as nat
    }

    closed spec fn spec_cols(&self) -> nat {
        self.cols as nat
    }

    closed spec fn spec_get(&self, r: int, c: int) -> int {
        self.buffer@[r * self.cols + c] as int
    }

    closed spec fn wf(&self) -> bool {
        self.buffer@.len() == self.rows * self.cols
    }

    closed spec fn in_range(&self, r: int, c: int) -> bool {
        true
    }

    fn unsafe_get(&self, r: usize, c: usize) -> (e: i64) {
        let n: usize = self.buffer.len();
        proof {
            lemma_row_major_index(self.rows as int, self.cols as int, r as int, c as int);
        }
        let i: usize = r * self.cols + c;
        self.buffer[i]
    }
}

impl Matrix for Mat {
    fn nrows(&self) -> usize {
        self.rows
    }

    fn ncols(&self) -> usize {
        self.cols
    }
}

impl<M: UnsafeGet> UnsafeGet for &M {
    open spec fn spec_rows(&self) -> nat {
        (**self).spec_rows()
    }

    open spec fn spec_cols(&self) -> nat {
        (**self).spec_cols()
    }

    open spec fn spec_get(&self, r: int, c: int) -> int {
        (**self).spec_get(r, c)
    }

    open spec fn wf(&self) -> bool {
        (**self).wf()
    }

    open spec fn in_range(&self, r: int, c: int) -> bool {
        (**self).in_range(r, c)
    }

    fn unsafe_get(&self, r: usize, c: usize) -> (e: i64) {
        (**self).unsafe_get(r, c)
    }
}

impl<M: Matrix> Matrix for &M {
    fn nrows(&self) -> usize {
        (**self).nrows()
    }

    fn ncols(&self) -> usize {
        (**self).ncols()
    }
}

impl<M: Matrix> traits::Transpose for M {
}

impl<M> Transpose<M> {
    /// The wrapped operand.
    pub open spec fn operand(self) -> M {
        self.m
    }
}

impl<M: UnsafeGet> UnsafeGet for Transpose<M> {
    open spec fn spec_rows(&self) -> nat {
        self.m.spec_cols()
    }

    open spec fn spec_cols(&self) -> nat {
        self.m.spec_rows()
    }

    open spec fn spec_get(&self, r: int, c: int) -> int {
        self.m.spec_get(c, r)
    }

    open spec fn wf(&self) -> bool {
        self.m.wf()
    }

    open spec fn in_range(&self, r: int, c: int) -> bool {
        self.m.in_range(c, r)
    }

    fn unsafe_get(&self, r: usize, c: usize) -> (e: i64) {
        self.m.unsafe_get(c, r)
    }
}

impl<M: Matrix> Matrix for Transpose<M> {
    fn nrows(&self) -> usize {
        self.m.ncols()
    }

    fn ncols(&self) -> usize {
        self.m.nrows()
    }
}

/// The dot product of row `r` of `l` and column `c` of `r2`, over their
/// first `k` entries: the sum of `l[r, i] * r2[i, c]` for `i < k`.
pub open spec fn dot<L: UnsafeGet, R: UnsafeGet>(l: L, r2: R, r: int, c: int, k: int) -> int
    decreases k,
{
    if k <= 0 {
        0
    } else {
        dot(l, r2, r, c, k - 1) + l.spec_get(r, k - 1) * r2.spec_get(k - 1, c)
    }
}

impl<L: UnsafeGet, R: UnsafeGet> Sum<L, R> {
    /// Composes two matrices into a sum node; no element is computed here.
    /// The operands' dimensions must agree, which is a precondition: verified
    /// callers establish it statically, others go through [`Sum::try_new`].
    pub fn new(l: L, r: R) -> (s: Sum<L, R>)
        requires
            l.wf(),
            r.wf(),
            r.spec_rows() == l.spec_rows(),
            r.spec_cols() == l.spec_cols(),
        ensures
            s.wf(),
            s.lhs() == l,
            s.rhs() == r,
    {
        Sum { l, r }
    }

    /// Left operand.
    pub open spec fn lhs(self) -> L {
        self.l
    }

    /// Right operand.
    pub open spec fn rhs(self) -> R {
        self.r
    }
}

impl<L: Matrix, R: Matrix> Sum<L, R> {
    /// Composes two matrices into a sum node after checking that their
    /// dimensions agree; a mismatched pair yields `None` and no node, so a
    /// malformed sum can never be evaluated.
    pub fn try_new(l: L, r: R) -> (s: Option<Sum<L, R>>)
        requires
            l.wf(),
            r.wf(),
        ensures
            s is Some <==> (r.spec_rows() == l.spec_rows() && r.spec_cols() == l.spec_cols()),
            s matches Some(n) ==> n.wf() && n.lhs() == l && n.rhs() == r,
    {
        if l.nrows() == r.nrows() && l.ncols() == r.ncols() {
            Some(Sum { l, r })
        } else {
            None
        }
    }
}

impl<L: UnsafeGet, R: UnsafeGet> UnsafeGet for Sum<L, R> {
    open spec fn spec_rows(&self) -> nat {
        self.l.spec_rows()
    }

    open spec fn spec_cols(&self) -> nat {
        self.l.spec_cols()
    }

    open spec fn spec_get(&self, r: int, c: int) -> int {
        self.l.spec_get(r, c) + self.r.spec_get(r, c)
    }

    open spec fn wf(&self) -> bool {
        &&& self.l.wf()
        &&& self.r.wf()
        &&& self.r.spec_rows() == self.l.spec_rows()
        &&& self.r.spec_cols() == self.l.spec_cols()
    }

    open spec fn in_range(&self, r: int, c: int) -> bool {
        &&& self.l.in_range(r, c)
        &&& self.r.in_range(r, c)
        &&& i64::MIN <= self.l.spec_get(r, c) + self.r.spec_get(r, c) <= i64::MAX
    }

    fn unsafe_get(&self, r: usize, c: usize) -> (e: i64) {
        self.l.unsafe_get(r, c) + self.r.unsafe_get(r, c)
    }
}

impl<L: Matrix, R: Matrix> Matrix for Sum<L, R> {
    fn nrows(&self) -> usize {
        self.l.nrows()
    }

    fn ncols(&self) -> usize {
        self.l.ncols()
    }
}

impl<L: Matrix, R: Matrix> Product<L, R> {
    /// Composes two matrices into a product node; no element is computed
    /// here. The left operand's column count must equal the right operand's
    /// row count, which is a precondition: verified callers establish it
    /// statically, others go through [`Product::try_new`].
    pub fn new(l: L, r: R) -> (p: Product<L, R>)
        requires
            l.wf(),
            r.wf(),
            r.spec_rows() == l.spec_cols(),
        ensures
            p.wf(),
            p.lhs() == l,
            p.rhs() == r,
    {
        Product { l, r }
    }

    /// Left operand.
    pub open spec fn lhs(self) -> L {
        self.l
    }

    /// Right operand.
    pub open spec fn rhs(self) -> R {
        self.r
    }

    /// Composes two matrices into a product node after checking that the
    /// left operand's column count equals the right operand's row count; a
    /// mismatched pair yields `None` and no node, so a malformed product can
    /// never be evaluated.
    pub fn try_new(l: L, r: R) -> (p: Option<Product<L, R>>)
        requires
            l.wf(),
            r.wf(),
        ensures
            p is Some <==> r.spec_rows() == l.spec_cols(),
            p matches Some(n) ==> n.wf() && n.lhs() == l && n.rhs() == r,
    {
        if l.ncols() == r.nrows() {
            Some(Product { l, r })
        } else {
            None
        }
    }
}

impl<L: Matrix, R: Matrix> UnsafeGet for Product<L, R> {
    open spec fn spec_rows(&self) -> nat {
        self.l.spec_rows()
    }

    open spec fn spec_cols(&self) -> nat {
        self.r.spec_cols()
    }

    open spec fn spec_get(&self, r: int, c: int) -> int {
        dot(self.l, self.r, r, c, self.l.spec_cols() as int)
    }

    open spec fn wf(&self) -> bool {
        &&& self.l.wf()
        &&& self.r.wf()
        &&& self.r.spec_rows() == self.l.spec_cols()
    }

    open spec fn in_range(&self, r: int, c: int) -> bool {
        let k = self.l.spec_cols() as int;
        &&& forall|i: int| 0 <= i < k ==> #[trigger] self.l.in_range(r, i)
        &&& forall|i: int| 0 <= i < k ==> #[trigger] self.r.in_range(i, c)
        &&& forall|i: int|
            0 <= i < k ==> i64::MIN <= #[trigger] (self.l.spec_get(r, i) * self.r.spec_get(i, c))
                <= i64::MAX
        &&& forall|j: int|
            0 <= j <= k ==> i64::MIN <= #[trigger] dot(self.l, self.r, r, c, j) <= i64::MAX
    }

    fn unsafe_get(&self, r: usize, c: usize) -> (e: i64) {
        let k: usize = self.l.ncols();
        let mut sum: i64 = Zero::zero();
        let mut i: usize = 0;
        while i < k
            invariant
                self.wf(),
                r < self.spec_rows(),
                c < self.spec_cols(),
                self.in_range(r as int, c as int),
                k == self.l.spec_cols(),
                i <= k,
                sum == dot(self.l, self.r, r as int, c as int, i as int),
            decreases k - i,
        {
            let a = self.l.unsafe_get(r, i);
            let b = self.r.unsafe_get(i, c);
            proof {
                assert(dot(self.l, self.r, r as int, c as int, i + 1) == dot(
                    self.l,
                    self.r,
                    r as int,
                    c as int,
                    i as int,
                ) + self.l.spec_get(r as int, i as int) * self.r.spec_get(i as int, c as int));
            }
            sum = sum + a * b;
            i = i + 1;
        }
        sum
    }
}

impl<L: Matrix, R: Matrix> Matrix for Product<L, R> {
    fn nrows(&self) -> usize {
        self.l.nrows()
    }

    fn ncols(&self) -> usize {
        self.r.ncols()
    }
}

} // verus!
