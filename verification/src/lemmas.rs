//! Laws of the expression-tree algebra, stated and proved once for every
//! matrix-capable operand.

use vstd::prelude::*;

use crate::Product;
use crate::Sum;
use crate::Transpose;
use crate::dot;
use crate::traits::Matrix;
use crate::traits::UnsafeGet;

verus! {

/// Double transpose identity: wrapping a matrix-capable value in two
/// transpose nodes leaves every element, and both dimensions, unchanged.
pub proof fn lemma_double_transpose<M: UnsafeGet>(m: M, r: int, c: int)
    ensures
        (Transpose { m: Transpose { m } }).spec_get(r, c) == m.spec_get(r, c),
        (Transpose { m: Transpose { m } }).spec_rows() == m.spec_rows(),
        (Transpose { m: Transpose { m } }).spec_cols() == m.spec_cols(),
{
}

/// Sum commutativity: the sum of two same-shaped matrices holds the same
/// element at every position whichever operand stands on the left.
pub proof fn lemma_sum_commutes<L: UnsafeGet, R: UnsafeGet>(l: L, r: R, row: int, col: int)
    ensures
        (Sum { l, r }).spec_get(row, col) == (Sum { l: r, r: l }).spec_get(row, col),
{
}

/// Product correctness: the element of a product node at (`row`, `col`) is
/// the dot product of row `row` of the left operand and column `col` of the
/// right operand, over the left operand's column count.
pub proof fn lemma_product_dot<L: Matrix, R: Matrix>(p: Product<L, R>, row: int, col: int)
    ensures
        p.spec_get(row, col) == dot(p.lhs(), p.rhs(), row, col, p.lhs().spec_cols() as int),
{
}

/// A dot product over `k` entries, each factor within `bound` in magnitude,
/// lies within `k * bound * bound` in magnitude.
pub proof fn lemma_dot_bound<L: UnsafeGet, R: UnsafeGet>(
    l: L,
    r2: R,
    r: int,
    c: int,
    k: int,
    bound: int,
)
    requires
        0 <= k,
        0 <= bound,
        forall|i: int| 0 <= i < k ==> -bound <= #[trigger] l.spec_get(r, i) <= bound,
        forall|i: int| 0 <= i < k ==> -bound <= #[trigger] r2.spec_get(i, c) <= bound,
    ensures
        -(k * bound * bound) <= dot(l, r2, r, c, k) <= k * bound * bound,
    decreases k,
{
    if k > 0 {
        lemma_dot_bound(l, r2, r, c, k - 1, bound);
        assert(-(bound * bound) <= l.spec_get(r, k - 1) * r2.spec_get(k - 1, c) <= bound * bound)
            by (nonlinear_arith)
            requires
                -bound <= l.spec_get(r, k - 1) <= bound,
                -bound <= r2.spec_get(k - 1, c) <= bound,
                0 <= bound,
        ;
        assert((k - 1) * bound * bound + bound * bound == k * bound * bound) by (nonlinear_arith);
    }
}

/// The elements of a product can be evaluated without leaving `i64` when
/// both operands' relevant elements can, each such element lies within
/// `bound` in magnitude, and `k * bound * bound` fits in `i64`, for `k` the
/// left operand's column count.
pub proof fn lemma_product_in_range<L: Matrix, R: Matrix>(
    p: Product<L, R>,
    r: int,
    c: int,
    bound: int,
)
    requires
        0 <= bound,
        forall|i: int|
            0 <= i < p.l.spec_cols() ==> #[trigger] p.l.in_range(r, i),
        forall|i: int|
            0 <= i < p.l.spec_cols() ==> #[trigger] p.r.in_range(i, c),
        forall|i: int|
            0 <= i < p.l.spec_cols() ==> -bound <= #[trigger] p.l.spec_get(r, i) <= bound,
        forall|i: int|
            0 <= i < p.l.spec_cols() ==> -bound <= #[trigger] p.r.spec_get(i, c) <= bound,
        p.l.spec_cols() * bound * bound <= i64::MAX,
    ensures
        p.in_range(r, c),
{
    let k = p.l.spec_cols() as int;
    assert forall|i: int|
        0 <= i < k implies i64::MIN <= #[trigger] (p.l.spec_get(r, i) * p.r.spec_get(
        i,
        c,
    )) <= i64::MAX by {
        assert(-(bound * bound) <= p.l.spec_get(r, i) * p.r.spec_get(i, c) <= bound
            * bound) by (nonlinear_arith)
            requires
                -bound <= p.l.spec_get(r, i) <= bound,
                -bound <= p.r.spec_get(i, c) <= bound,
                0 <= bound,
        ;
        assert(bound * bound <= k * bound * bound) by (nonlinear_arith)
            requires
                0 <= bound,
                1 <= k,
        ;
    }
    assert forall|j: int|
        0 <= j <= k implies i64::MIN <= #[trigger] dot(p.l, p.r, r, c, j) <= i64::MAX by {
        lemma_dot_bound(p.l, p.r, r, c, j, bound);
        assert(j * bound * bound <= k * bound * bound) by (nonlinear_arith)
            requires
                j <= k,
                0 <= bound,
        ;
    }
    assert(p.in_range(r, c));
}

} // verus!
