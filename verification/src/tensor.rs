//! The tensor container: construction and the bounds-checked accessor.

use crate::error::TensorError;
use crate::grid::Grid;
use vstd::prelude::*;

verus! {

/// A dense grid of elements, stored row by row, with its declared shape.
///
/// The fields are public. A tensor built by [`Tensor::new`], or by
/// [`Tensor::from`] out of rows of equal length, stores exactly its declared
/// shape (`self@.wf()`), and every operator returns such a tensor.
#[derive(Debug)]
pub struct Tensor<T> {
    /// The rows, outermost first.
    pub data: Vec<Vec<T>>,
    /// Declared number of rows.
    pub nrows: usize,
    /// Declared number of columns.
    pub ncols: usize,
}

/// Nested vectors read as nested sequences.
pub open spec fn rows_of<T>(data: Seq<Vec<T>>) -> Seq<Seq<T>> {
    Seq::new(data.len(), |i: int| data[i]@)
}

impl<T> View for Tensor<T> {
    type V = Grid<T>;

    open spec fn view(&self) -> Grid<T> {
        Grid { nrows: self.nrows as nat, ncols: self.ncols as nat, rows: rows_of(self.data@) }
    }
}

/// A row of `ncols` copies of `value`.
fn filled_row<T: Copy>(ncols: usize, value: T) -> (row: Vec<T>)
    ensures
        row@ == Seq::new(ncols as nat, |j: int| value),
{
    let mut row: Vec<T> = Vec::new();
    let mut j: usize = 0;
    while j < ncols
        invariant
            j <= ncols,
            row@ == Seq::new(j as nat, |k: int| value),
        decreases ncols - j,
    {
        row.push(value);
        j += 1;
    }
    row
}

impl<T> Tensor<T> {
    /// Wraps caller-supplied rows, taking ownership of them.
    ///
    /// The declared shape is read off the data: one row per stored row, and
    /// as many columns as the first row is long. Data without rows has no
    /// first row and is refused with [`TensorError::InvalidShape`]. Rows of
    /// unequal length are accepted as they are; the tensor then stores
    /// something other than its declared shape.
    pub fn from(data: Vec<Vec<T>>) -> (result: Result<Self, TensorError>)
        ensures
            data@.len() == 0 ==> result == Err::<Self, TensorError>(TensorError::InvalidShape),
            data@.len() > 0 ==> result is Ok,
            result matches Ok(t) ==> t.data == data && t@ == Grid::of_rows(rows_of(data@)),
            result matches Ok(t) ==> (t@.wf() <==> Grid::rectangular(rows_of(data@))),
    {
        if data.len() == 0 {
            return Err(TensorError::InvalidShape);
        }
        let nrows = data.len();
        let ncols = data[0].len();
        Ok(Tensor { data, nrows, ncols })
    }

    /// Builds the tensor of the given shape whose every cell holds `initial`.
    ///
    /// A shape with no rows or no columns gives an empty grid.
    pub fn new(nrows: usize, ncols: usize, initial: T) -> (t: Self) where T: Copy
        ensures
            t@ == Grid::filled(nrows as nat, ncols as nat, initial),
            t@.wf(),
    {
        let mut data: Vec<Vec<T>> = Vec::new();
        let mut i: usize = 0;
        while i < nrows
            invariant
                i <= nrows,
                data@.len() == i,
                forall|k: int|
                    0 <= k < i ==> (#[trigger] data@[k])@ == Seq::new(
                        ncols as nat,
                        |j: int| initial,
                    ),
            decreases nrows - i,
        {
            let row = filled_row(ncols, initial);
            data.push(row);
            i += 1;
        }
        assert(rows_of(data@) =~= Grid::filled(nrows as nat, ncols as nat, initial).rows);
        Tensor { data, nrows, ncols }
    }

    /// Tells whether a cell is stored at every coordinate below
    /// `(nrows, ncols)`.
    ///
    /// This is what the accessor and the operators ask of their operands,
    /// for the declared shape that they walk.
    pub fn covers(&self, nrows: usize, ncols: usize) -> (result: bool)
        ensures
            result == self@.covers(nrows as nat, ncols as nat),
    {
        if nrows == 0 || ncols == 0 {
            return true;
        }
        if self.data.len() < nrows {
            assert(!self@.stores(nrows - 1, 0));
            return false;
        }
        let mut i: usize = 0;
        while i < nrows
            invariant
                i <= nrows,
                nrows <= self.data@.len(),
                0 < ncols,
                forall|k: int| 0 <= k < i ==> ncols <= (#[trigger] self.data@[k])@.len(),
            decreases nrows - i,
        {
            if self.data[i].len() < ncols {
                assert(!self@.stores(i as int, ncols - 1));
                return false;
            }
            i += 1;
        }
        true
    }

    /// Reads the cell at `(row, col)`, or nothing when the coordinate lies
    /// outside the declared shape.
    ///
    /// Only the declared shape is consulted. The caller answers for the cell
    /// being stored whenever the coordinate lies inside it, which holds of
    /// every coordinate once `self@.wf()`.
    pub fn get(&self, row: usize, col: usize) -> (result: Option<&T>)
        requires
            row < self.nrows && col < self.ncols ==> self@.stores(row as int, col as int),
        ensures
            match result {
                Some(cell) => self@.get(row as int, col as int) == Some(*cell),
                None => self@.get(row as int, col as int) is None,
            },
    {
        if row < self.nrows && col < self.ncols {
            Some(&self.data[row][col])
        } else {
            None
        }
    }
}

impl<T: Clone> Clone for Tensor<T> {
    /// Copies the declared shape and clones every stored cell, each at its
    /// own coordinate.
    fn clone(&self) -> (result: Self)
        ensures
            self@.wf() ==> result@.wf(),
            result@.nrows == self@.nrows,
            result@.ncols == self@.ncols,
            result@.rows.len() == self@.rows.len(),
            forall|i: int|
                0 <= i < self@.rows.len() ==> (#[trigger] result@.rows[i]).len()
                    == self@.rows[i].len(),
            forall|i: int, j: int|
                self@.stores(i, j) ==> cloned(self@.at(i, j), #[trigger] result@.at(i, j)),
    {
        let result = Tensor { data: self.data.clone(), nrows: self.nrows, ncols: self.ncols };
        assert forall|i: int| 0 <= i < self@.rows.len() implies (#[trigger] result@.rows[i]).len()
            == self@.rows[i].len() by {
            assert(cloned(self.data@[i], result.data@[i]));
        }
        result
    }
}

} // verus!
