//! Traits
//!
//! The matrix capability is split in two, as in any expression-tree algebra:
//! `UnsafeGet` carries the mathematical model of a matrix-like value (its
//! dimensions, its element at each position, and the conditions under which
//! an element can be evaluated), while `Matrix` adds the executable surface
//! built on top of it. `Zero` supplies the starting value of a dot-product
//! accumulator, and `Transpose` wraps any matrix in a transpose node.

use vstd::prelude::*;

verus! {

/// Unchecked element access, together with the mathematical model that every
/// matrix-capable value carries.
///
/// `spec_get` is the value's element at a position, as an unbounded integer;
/// `wf` is the structural invariant (operand shapes agree, storage length
/// matches the dimensions); `in_range` says that evaluating the element at a
/// position stays within `i64` at every intermediate step. `unsafe_get`
/// performs no run-time bounds validation: its preconditions are discharged
/// statically, so correctly-bounded internal recursive calls pay for no
/// repeated checks.
pub trait UnsafeGet: Sized {
    /// Number of rows of the value.
    spec fn spec_rows(&self) -> nat;

    /// Number of columns of the value.
    spec fn spec_cols(&self) -> nat;

    /// The element at row `r`, column `c`, as a mathematical integer.
    spec fn spec_get(&self, r: int, c: int) -> int;

    /// Structural invariant: every node of the expression tree was built
    /// from operands whose shapes are compatible.
    spec fn wf(&self) -> bool;

    /// Evaluating the element at (`r`, `c`) stays within `i64` bounds at
    /// every intermediate step of the recursive descent.
    spec fn in_range(&self, r: int, c: int) -> bool;

    /// Returns the element at row `r` and column `c` without run-time bounds
    /// validation; the bounds are preconditions, discharged statically.
    fn unsafe_get(&self, r: usize, c: usize) -> (e: i64)
        requires
            self.wf(),
            r < self.spec_rows(),
            c < self.spec_cols(),
            self.in_range(r as int, c as int),
        ensures
            e as int == self.spec_get(r as int, c as int),
    ;
}

/// A matrix: the executable capability built on the model of `UnsafeGet`.
pub trait Matrix: UnsafeGet {
    /// Returns the number of rows of the matrix.
    fn nrows(&self) -> (n: usize)
        ensures
            n == self.spec_rows(),
    ;

    /// Returns the number of columns of the matrix.
    fn ncols(&self) -> (n: usize)
        ensures
            n == self.spec_cols(),
    ;

    /// Returns the size of the matrix as (rows, columns).
    fn size(&self) -> (s: (usize, usize))
        ensures
            s.0 == self.spec_rows(),
            s.1 == self.spec_cols(),
    {
        (self.nrows(), self.ncols())
    }

    /// Returns the element at row `r` and column `c`.
    ///
    /// An access outside the matrix dimensions is excluded statically by the
    /// preconditions; there is no input on which this function faults.
    fn get(&self, r: usize, c: usize) -> (e: i64)
        requires
            self.wf(),
            r < self.spec_rows(),
            c < self.spec_cols(),
            self.in_range(r as int, c as int),
        ensures
            e as int == self.spec_get(r as int, c as int),
    {
        self.unsafe_get(r, c)
    }

    /// Returns the element at row `r` and column `c`, or `None` when the
    /// position lies outside the matrix dimensions.
    fn checked_get(&self, r: usize, c: usize) -> (e: Option<i64>)
        requires
            self.wf(),
            r < self.spec_rows() && c < self.spec_cols() ==> self.in_range(
                r as int,
                c as int,
            ),
        ensures
            r < self.spec_rows() && c < self.spec_cols() ==> (e matches Some(v) && v as int
                == self.spec_get(r as int, c as int)),
            !(r < self.spec_rows() && c < self.spec_cols()) ==> e is None,
    {
        if r < self.nrows() && c < self.ncols() {
            Some(self.unsafe_get(r, c))
        } else {
            None
        }
    }
}

/// The transpose operation: wraps a matrix in a transpose node. Always
/// legal, whatever the operand's shape.
pub trait Transpose: Matrix {
    /// Transposes the matrix.
    fn t(self) -> (tr: crate::Transpose<Self>)
        ensures
            tr.operand() == self,
    {
        crate::Transpose { m: self }
    }
}

/// Types that have a "zero" value.
pub trait Zero: Sized {
    /// The value of this type that represents the number zero.
    spec fn spec_zero() -> Self;

    /// Returns the value of this type that represents the number zero.
    fn zero() -> (z: Self)
        ensures
            z == Self::spec_zero(),
    ;
}

impl Zero for i8 {
    open spec fn spec_zero() -> i8 {
        0
    }

    fn zero() -> i8 {
        0
    }
}

impl Zero for i16 {
    open spec fn spec_zero() -> i16 {
        0
    }

    fn zero() -> i16 {
        0
    }
}

impl Zero for i32 {
    open spec fn spec_zero() -> i32 {
        0
    }

    fn zero() -> i32 {
        0
    }
}

impl Zero for i64 {
    open spec fn spec_zero() -> i64 {
        0
    }

    fn zero() -> i64 {
        0
    }
}

impl Zero for isize {
    open spec fn spec_zero() -> isize {
        0
    }

    fn zero() -> isize {
        0
    }
}

impl Zero for u8 {
    open spec fn spec_zero() -> u8 {
        0
    }

    fn zero() -> u8 {
        0
    }
}

impl Zero for u16 {
    open spec fn spec_zero() -> u16 {
        0
    }

    fn zero() -> u16 {
        0
    }
}

impl Zero for u32 {
    open spec fn spec_zero() -> u32 {
        0
    }

    fn zero() -> u32 {
        0
    }
}

impl Zero for u64 {
    open spec fn spec_zero() -> u64 {
        0
    }

    fn zero() -> u64 {
        0
    }
}

impl Zero for usize {
    open spec fn spec_zero() -> usize {
        0
    }

    fn zero() -> usize {
        0
    }
}

} // verus!
