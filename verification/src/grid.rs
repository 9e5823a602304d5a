//! The mathematical picture of a tensor.
//!
//! A [`Grid`] is a declared shape together with the rows that are stored.
//! The two agree for every grid that is built from rectangular data;
//! [`Grid::wf`] says so. Elementwise arithmetic is described twice: by what
//! the element type's own operator may return for each pair of cells
//! ([`Grid::is_zip`], [`Grid::is_map`]), and in closed form for element types
//! whose operators obey their spec functions ([`Grid::sum`] and its
//! siblings).

use std::ops::{Add, Div, Mul, Neg, Sub};
use vstd::prelude::*;
use vstd::std_specs::ops::{AddSpec, DivSpec, MulSpec, NegSpec, SubSpec};

verus! {

/// A declared shape and the stored rows.
pub struct Grid<T> {
    /// Declared number of rows.
    pub nrows: nat,
    /// Declared number of columns.
    pub ncols: nat,
    /// The stored rows, outermost first.
    pub rows: Seq<Seq<T>>,
}

impl<T> Grid<T> {
    /// The stored rows have exactly the declared shape.
    pub open spec fn wf(self) -> bool {
        &&& self.rows.len() == self.nrows
        &&& forall|i: int|
            0 <= i < self.rows.len() ==> (#[trigger] self.rows[i]).len() == self.ncols
    }

    /// Every row is as long as the first one.
    pub open spec fn rectangular(rows: Seq<Seq<T>>) -> bool {
        forall|i: int| 0 <= i < rows.len() ==> (#[trigger] rows[i]).len() == rows[0].len()
    }

    /// A cell is stored at `(row, col)`.
    pub open spec fn stores(self, row: int, col: int) -> bool {
        0 <= row < self.rows.len() && 0 <= col < self.rows[row].len()
    }

    /// Every coordinate below `(nrows, ncols)` has a stored cell.
    pub open spec fn covers(self, nrows: nat, ncols: nat) -> bool {
        forall|i: int, j: int| 0 <= i < nrows && 0 <= j < ncols ==> #[trigger] self.stores(i, j)
    }

    /// The stored cell at `(row, col)`.
    pub open spec fn at(self, row: int, col: int) -> T
        recommends
            self.stores(row, col),
    {
        self.rows[row][col]
    }

    /// The bounds-checked read: the cell when the coordinate lies strictly
    /// inside the declared shape, nothing otherwise.
    pub open spec fn get(self, row: int, col: int) -> Option<T> {
        if 0 <= row < self.nrows && 0 <= col < self.ncols {
            Some(self.at(row, col))
        } else {
            None
        }
    }

    /// The grid of the given shape whose every cell holds `value`.
    pub open spec fn filled(nrows: nat, ncols: nat, value: T) -> Grid<T> {
        Grid { nrows, ncols, rows: Seq::new(nrows, |i: int| Seq::new(ncols, |j: int| value)) }
    }

    /// The grid that wraps `rows`: one declared row per stored row, and as
    /// many declared columns as the first row is long.
    pub open spec fn of_rows(rows: Seq<Seq<T>>) -> Grid<T>
        recommends
            rows.len() > 0,
    {
        Grid { nrows: rows.len(), ncols: rows[0].len(), rows }
    }

    /// `self` has the declared shape of `lhs`, stores exactly that shape, and
    /// each of its cells is a value that `op` may return for the cells of
    /// `lhs` and `rhs` at the same coordinate.
    pub open spec fn is_zip<F: Fn(T, T) -> T>(self, op: F, lhs: Grid<T>, rhs: Grid<T>) -> bool {
        &&& self.wf()
        &&& self.nrows == lhs.nrows
        &&& self.ncols == lhs.ncols
        &&& forall|i: int, j: int|
            0 <= i < lhs.nrows && 0 <= j < lhs.ncols ==> call_ensures(
                op,
                (lhs.at(i, j), rhs.at(i, j)),
                #[trigger] self.at(i, j),
            )
    }

    /// `self` has the declared shape of `src`, stores exactly that shape, and
    /// each of its cells is a value that `op` may return for the cell of
    /// `src` at the same coordinate.
    pub open spec fn is_map<F: Fn(T) -> T>(self, op: F, src: Grid<T>) -> bool {
        &&& self.wf()
        &&& self.nrows == src.nrows
        &&& self.ncols == src.ncols
        &&& forall|i: int, j: int|
            0 <= i < src.nrows && 0 <= j < src.ncols ==> call_ensures(
                op,
                (src.at(i, j),),
                #[trigger] self.at(i, j),
            )
    }
}

impl<T: Add<Output = T>> Grid<T> {
    /// Each cell inside the declared shape of `self` may be added to the
    /// cell of `rhs` at the same coordinate.
    pub open spec fn can_add(self, rhs: Grid<T>) -> bool {
        forall|i: int, j: int|
            0 <= i < self.nrows && 0 <= j < self.ncols ==> #[trigger] self.at(i, j).add_req(
                rhs.at(i, j),
            )
    }

    /// The cell-by-cell sum, of the declared shape of `self`.
    pub open spec fn sum(self, rhs: Grid<T>) -> Grid<T> {
        Grid {
            nrows: self.nrows,
            ncols: self.ncols,
            rows: Seq::new(
                self.nrows,
                |i: int| Seq::new(self.ncols, |j: int| self.at(i, j).add_spec(rhs.at(i, j))),
            ),
        }
    }
}

impl<T: Sub<Output = T>> Grid<T> {
    /// Each cell of `rhs` may be subtracted from the cell of `self` at the
    /// same coordinate, over the declared shape of `self`.
    pub open spec fn can_sub(self, rhs: Grid<T>) -> bool {
        forall|i: int, j: int|
            0 <= i < self.nrows && 0 <= j < self.ncols ==> #[trigger] self.at(i, j).sub_req(
                rhs.at(i, j),
            )
    }

    /// The cell-by-cell difference, of the declared shape of `self`.
    pub open spec fn difference(self, rhs: Grid<T>) -> Grid<T> {
        Grid {
            nrows: self.nrows,
            ncols: self.ncols,
            rows: Seq::new(
                self.nrows,
                |i: int| Seq::new(self.ncols, |j: int| self.at(i, j).sub_spec(rhs.at(i, j))),
            ),
        }
    }
}

impl<T: Mul<Output = T>> Grid<T> {
    /// Each cell inside the declared shape of `self` may be multiplied by
    /// the cell of `rhs` at the same coordinate.
    pub open spec fn can_mul(self, rhs: Grid<T>) -> bool {
        forall|i: int, j: int|
            0 <= i < self.nrows && 0 <= j < self.ncols ==> #[trigger] self.at(i, j).mul_req(
                rhs.at(i, j),
            )
    }

    /// The cell-by-cell product, of the declared shape of `self`.
    pub open spec fn product(self, rhs: Grid<T>) -> Grid<T> {
        Grid {
            nrows: self.nrows,
            ncols: self.ncols,
            rows: Seq::new(
                self.nrows,
                |i: int| Seq::new(self.ncols, |j: int| self.at(i, j).mul_spec(rhs.at(i, j))),
            ),
        }
    }
}

impl<T: Div<Output = T>> Grid<T> {
    /// Each cell inside the declared shape of `self` may be divided by the
    /// cell of `rhs` at the same coordinate.
    pub open spec fn can_div(self, rhs: Grid<T>) -> bool {
        forall|i: int, j: int|
            0 <= i < self.nrows && 0 <= j < self.ncols ==> #[trigger] self.at(i, j).div_req(
                rhs.at(i, j),
            )
    }

    /// The cell-by-cell quotient, of the declared shape of `self`.
    pub open spec fn quotient(self, rhs: Grid<T>) -> Grid<T> {
        Grid {
            nrows: self.nrows,
            ncols: self.ncols,
            rows: Seq::new(
                self.nrows,
                |i: int| Seq::new(self.ncols, |j: int| self.at(i, j).div_spec(rhs.at(i, j))),
            ),
        }
    }
}

impl<T: Neg<Output = T>> Grid<T> {
    /// Each cell inside the declared shape may be negated.
    pub open spec fn can_neg(self) -> bool {
        forall|i: int, j: int|
            0 <= i < self.nrows && 0 <= j < self.ncols ==> #[trigger] self.at(i, j).neg_req()
    }

    /// The cell-by-cell negation, of the same declared shape.
    pub open spec fn negation(self) -> Grid<T> {
        Grid {
            nrows: self.nrows,
            ncols: self.ncols,
            rows: Seq::new(
                self.nrows,
                |i: int| Seq::new(self.ncols, |j: int| self.at(i, j).neg_spec()),
            ),
        }
    }
}

} // verus!
