//! The matrix product of two tensors.
//!
//! The product has one row per row of the left operand and one column per
//! column of the right operand. Each cell is the sum of the products of a
//! row of the left operand with a column of the right operand, taken in
//! order of increasing index and starting from the element type's default
//! value, which is zero for every primitive numeric type.

use crate::grid::Grid;
use crate::tensor::Tensor;
use std::ops::{Add, Mul};
use vstd::prelude::*;
use vstd::std_specs::ops::{AddSpec, MulSpec};

verus! {

/// `zero` is a value that `T::default()` may return.
pub open spec fn is_default<T: Default>(zero: T) -> bool {
    call_ensures(T::default, (), zero)
}

impl<T: Add<Output = T> + Mul<Output = T>> Grid<T> {
    /// The sum, starting from `zero`, of the first `n` products of row `row`
    /// of `self` with column `col` of `rhs`.
    pub open spec fn dot(self, rhs: Grid<T>, row: int, col: int, n: nat, zero: T) -> T
        decreases n,
    {
        if n == 0 {
            zero
        } else {
            self.dot(rhs, row, col, (n - 1) as nat, zero).add_spec(
                self.at(row, n - 1).mul_spec(rhs.at(n - 1, col)),
            )
        }
    }

    /// The element type accepts every multiplication and every addition
    /// that `dot` makes for the same arguments.
    pub open spec fn can_dot(self, rhs: Grid<T>, row: int, col: int, n: nat, zero: T) -> bool
        decreases n,
    {
        n > 0 ==> {
            &&& self.can_dot(rhs, row, col, (n - 1) as nat, zero)
            &&& self.at(row, n - 1).mul_req(rhs.at(n - 1, col))
            &&& self.dot(rhs, row, col, (n - 1) as nat, zero).add_req(
                self.at(row, n - 1).mul_spec(rhs.at(n - 1, col)),
            )
        }
    }

    /// The element type accepts every step of every cell of the matrix
    /// product.
    pub open spec fn can_matmul(self, rhs: Grid<T>, zero: T) -> bool {
        forall|row: int, col: int|
            0 <= row < self.nrows && 0 <= col < rhs.ncols ==> #[trigger] self.can_dot(
                rhs,
                row,
                col,
                self.ncols,
                zero,
            )
    }

    /// The matrix product: `self.nrows` rows of `rhs.ncols` cells, the cell
    /// at `(row, col)` being the dot product of row `row` of `self` with
    /// column `col` of `rhs` over all `self.ncols` indices.
    pub open spec fn matrix_product(self, rhs: Grid<T>, zero: T) -> Grid<T> {
        Grid {
            nrows: self.nrows,
            ncols: rhs.ncols,
            rows: Seq::new(
                self.nrows,
                |row: int|
                    Seq::new(rhs.ncols, |col: int| self.dot(rhs, row, col, self.ncols, zero)),
            ),
        }
    }
}

/// Whatever the element type accepts for `n` steps of a dot product it
/// accepts for any shorter prefix.
pub proof fn lemma_can_dot_prefix<T: Add<Output = T> + Mul<Output = T>>(
    a: Grid<T>,
    b: Grid<T>,
    row: int,
    col: int,
    n: nat,
    m: nat,
    zero: T,
)
    requires
        a.can_dot(b, row, col, n, zero),
        m <= n,
    ensures
        a.can_dot(b, row, col, m, zero),
    decreases n,
{
    if m < n {
        lemma_can_dot_prefix(a, b, row, col, (n - 1) as nat, m, zero);
    }
}

/// The matrix product stores exactly its declared shape: the rows of the
/// left operand by the columns of the right one.
pub proof fn lemma_matrix_product_wf<T: Add<Output = T> + Mul<Output = T>>(
    a: Grid<T>,
    b: Grid<T>,
    zero: T,
)
    ensures
        a.matrix_product(b, zero).wf(),
        a.matrix_product(b, zero).nrows == a.nrows,
        a.matrix_product(b, zero).ncols == b.ncols,
{
}

/// Reading the matrix product gives, at every coordinate inside its shape,
/// the dot product of that row of the left operand with that column of the
/// right one.
pub proof fn lemma_matrix_product_get<T: Add<Output = T> + Mul<Output = T>>(
    a: Grid<T>,
    b: Grid<T>,
    zero: T,
    row: int,
    col: int,
)
    requires
        0 <= row < a.nrows,
        0 <= col < b.ncols,
    ensures
        a.matrix_product(b, zero).get(row, col) == Some(a.dot(b, row, col, a.ncols, zero)),
{
}

/// Over no inner index every cell of the matrix product is `zero`.
pub proof fn lemma_matrix_product_of_no_columns<T: Add<Output = T> + Mul<Output = T>>(
    a: Grid<T>,
    b: Grid<T>,
    zero: T,
)
    requires
        a.ncols == 0,
    ensures
        a.matrix_product(b, zero) == Grid::filled(a.nrows, b.ncols, zero),
{
    assert(a.matrix_product(b, zero).rows =~~= Grid::filled(a.nrows, b.ncols, zero).rows);
}

/// The dot product of row `row` of `lhs` with column `col` of `rhs`.
fn dot_cells<T: Copy + Add<Output = T> + Mul<Output = T>>(
    lhs: &Tensor<T>,
    rhs: &Tensor<T>,
    row: usize,
    col: usize,
    zero: T,
) -> (cell: T)
    requires
        T::obeys_add_spec(),
        T::obeys_mul_spec(),
        lhs@.covers(lhs@.nrows, lhs@.ncols),
        rhs@.covers(rhs@.nrows, rhs@.ncols),
        lhs@.ncols == rhs@.nrows,
        row < lhs@.nrows,
        col < rhs@.ncols,
        lhs@.can_dot(rhs@, row as int, col as int, lhs@.ncols, zero),
    ensures
        cell == lhs@.dot(rhs@, row as int, col as int, lhs@.ncols, zero),
{
    let mut acc = zero;
    let mut i: usize = 0;
    while i < lhs.ncols
        invariant
            T::obeys_add_spec(),
            T::obeys_mul_spec(),
            lhs@.covers(lhs@.nrows, lhs@.ncols),
            rhs@.covers(rhs@.nrows, rhs@.ncols),
            lhs@.ncols == rhs@.nrows,
            row < lhs@.nrows,
            col < rhs@.ncols,
            lhs@.can_dot(rhs@, row as int, col as int, lhs@.ncols, zero),
            i <= lhs.ncols,
            acc == lhs@.dot(rhs@, row as int, col as int, i as nat, zero),
        decreases lhs.ncols - i,
    {
        assert(lhs@.stores(row as int, i as int));
        assert(rhs@.stores(i as int, col as int));
        proof {
            lemma_can_dot_prefix(
                lhs@,
                rhs@,
                row as int,
                col as int,
                lhs@.ncols,
                (i + 1) as nat,
                zero,
            );
        }
        let term = lhs.data[row][i] * rhs.data[i][col];
        acc = acc + term;
        i += 1;
    }
    acc
}

impl<T: Copy + Default + Add<Output = T> + Mul<Output = T>> Tensor<T> {
    /// Multiplies `self` by `other` as matrices.
    ///
    /// There is a product exactly when `self` declares as many columns as
    /// `other` declares rows. Both operands must then store every cell
    /// inside their own declared shape, and the element type's `+` and `*`
    /// must obey their spec functions, so that every partial sum is known
    /// and can be shown to be accepted.
    pub fn matmul(&self, other: &Tensor<T>) -> (result: Option<Tensor<T>>)
        requires
            self.ncols == other.nrows ==> {
                &&& T::obeys_add_spec()
                &&& T::obeys_mul_spec()
                &&& self@.covers(self@.nrows, self@.ncols)
                &&& other@.covers(other@.nrows, other@.ncols)
                &&& forall|zero: T| is_default(zero) ==> self@.can_matmul(other@, zero)
            },
        ensures
            result is Some <==> self.ncols == other.nrows,
            result matches Some(product) ==> product@.wf() && exists|zero: T|
                is_default(zero) && product@ == self@.matrix_product(other@, zero),
    {
        if self.ncols != other.nrows {
            return None;
        }
        let zero = T::default();
        assert(is_default(zero));
        let mut data: Vec<Vec<T>> = Vec::new();
        let mut row: usize = 0;
        while row < self.nrows
            invariant
                T::obeys_add_spec(),
                T::obeys_mul_spec(),
                self@.covers(self@.nrows, self@.ncols),
                other@.covers(other@.nrows, other@.ncols),
                self@.ncols == other@.nrows,
                self@.can_matmul(other@, zero),
                row <= self.nrows,
                data@.len() == row,
                forall|k: int| 0 <= k < row ==> (#[trigger] data@[k])@.len() == other.ncols,
                forall|k: int, l: int|
                    0 <= k < row && 0 <= l < other.ncols ==> #[trigger] data@[k]@[l] == self@.dot(
                        other@,
                        k,
                        l,
                        self@.ncols,
                        zero,
                    ),
            decreases self.nrows - row,
        {
            let mut cells: Vec<T> = Vec::new();
            let mut col: usize = 0;
            while col < other.ncols
                invariant
                    T::obeys_add_spec(),
                    T::obeys_mul_spec(),
                    self@.covers(self@.nrows, self@.ncols),
                    other@.covers(other@.nrows, other@.ncols),
                    self@.ncols == other@.nrows,
                    self@.can_matmul(other@, zero),
                    row < self.nrows,
                    col <= other.ncols,
                    cells@.len() == col,
                    forall|l: int|
                        0 <= l < col ==> #[trigger] cells@[l] == self@.dot(
                            other@,
                            row as int,
                            l,
                            self@.ncols,
                            zero,
                        ),
                decreases other.ncols - col,
            {
                assert(self@.can_dot(other@, row as int, col as int, self@.ncols, zero));
                let cell = dot_cells(self, other, row, col, zero);
                cells.push(cell);
                col += 1;
            }
            data.push(cells);
            row += 1;
        }
        let product = Tensor { data, nrows: self.nrows, ncols: other.ncols };
        assert(product@.rows =~~= self@.matrix_product(other@, zero).rows);
        Some(product)
    }
}

} // verus!
