//! What holds of the grid operations, for every grid.

use crate::grid::Grid;
use std::ops::{Add, Div, Mul, Neg, Sub};
use vstd::prelude::*;
use vstd::std_specs::ops::{AddSpec, DivSpec, MulSpec, NegSpec, SubSpec};

verus! {

/// A grid that stores exactly its declared shape stores every coordinate
/// inside it.
pub proof fn lemma_wf_covers<T>(g: Grid<T>)
    requires
        g.wf(),
    ensures
        g.covers(g.nrows, g.ncols),
{
}

/// Wrapped rows store exactly their declared shape if and only if all of
/// them are as long as the first.
pub proof fn lemma_of_rows_wf<T>(rows: Seq<Seq<T>>)
    requires
        rows.len() > 0,
    ensures
        Grid::of_rows(rows).wf() <==> Grid::rectangular(rows),
{
}

/// Reading a filled grid gives the fill value at every coordinate inside
/// the shape, and nothing at any coordinate outside it.
pub proof fn lemma_filled_get<T>(nrows: nat, ncols: nat, value: T, row: int, col: int)
    ensures
        Grid::filled(nrows, ncols, value).wf(),
        0 <= row < nrows && 0 <= col < ncols ==> Grid::filled(nrows, ncols, value).get(row, col)
            == Some(value),
        !(0 <= row < nrows && 0 <= col < ncols) ==> Grid::filled(nrows, ncols, value).get(
            row,
            col,
        ) is None,
{
}

/// Reading a grid gives a cell exactly at the coordinates inside the
/// declared shape.
pub proof fn lemma_get_some_iff_inside<T>(g: Grid<T>, row: int, col: int)
    ensures
        g.get(row, col) is Some <==> 0 <= row < g.nrows && 0 <= col < g.ncols,
{
}

/// Reading a grid made cell by cell with `op` out of two grids of one shape
/// gives, at every coordinate inside that shape, a value that `op` returns
/// for what the two grids give there.
pub proof fn lemma_zip_get<T, F: Fn(T, T) -> T>(
    out: Grid<T>,
    op: F,
    a: Grid<T>,
    b: Grid<T>,
    row: int,
    col: int,
)
    requires
        out.is_zip(op, a, b),
        a.wf(),
        b.wf(),
        a.nrows == b.nrows,
        a.ncols == b.ncols,
        0 <= row < a.nrows,
        0 <= col < a.ncols,
    ensures
        a.get(row, col) is Some,
        b.get(row, col) is Some,
        out.get(row, col) is Some,
        call_ensures(
            op,
            (a.get(row, col).unwrap(), b.get(row, col).unwrap()),
            out.get(row, col).unwrap(),
        ),
{
    assert(call_ensures(op, (a.at(row, col), b.at(row, col)), out.at(row, col)));
}

/// Reading a grid made cell by cell with `op` out of another gives, at every
/// coordinate inside the shape, a value that `op` returns for what the other
/// grid gives there.
pub proof fn lemma_map_get<T, F: Fn(T) -> T>(out: Grid<T>, op: F, a: Grid<T>, row: int, col: int)
    requires
        out.is_map(op, a),
        a.wf(),
        0 <= row < a.nrows,
        0 <= col < a.ncols,
    ensures
        a.get(row, col) is Some,
        out.get(row, col) is Some,
        call_ensures(op, (a.get(row, col).unwrap(),), out.get(row, col).unwrap()),
{
    assert(call_ensures(op, (a.at(row, col),), out.at(row, col)));
}

/// The sum stores exactly the declared shape of the left operand.
pub proof fn lemma_sum_wf<T: Add<Output = T>>(a: Grid<T>, b: Grid<T>)
    ensures
        a.sum(b).wf(),
        a.sum(b).nrows == a.nrows,
        a.sum(b).ncols == a.ncols,
{
}

/// Reading the sum of two grids of one shape gives, at every coordinate
/// inside that shape, the sum of what the two grids give there.
pub proof fn lemma_sum_get<T: Add<Output = T>>(a: Grid<T>, b: Grid<T>, row: int, col: int)
    requires
        a.wf(),
        b.wf(),
        a.nrows == b.nrows,
        a.ncols == b.ncols,
        0 <= row < a.nrows,
        0 <= col < a.ncols,
    ensures
        a.get(row, col) is Some,
        b.get(row, col) is Some,
        a.sum(b).get(row, col) == Some(
            a.get(row, col).unwrap().add_spec(b.get(row, col).unwrap()),
        ),
{
}

/// Where the element type's `+` obeys `add_spec`, a grid made
/// cell by cell with it is the sum.
pub proof fn lemma_zip_is_sum<T: Add<Output = T>>(out: Grid<T>, a: Grid<T>, b: Grid<T>)
    requires
        T::obeys_add_spec(),
        out.is_zip(T::add, a, b),
    ensures
        out == a.sum(b),
{
    assert forall|i: int, j: int| 0 <= i < a.nrows && 0 <= j < a.ncols implies out.rows[i][j]
        == a.at(i, j).add_spec(b.at(i, j)) by {
        assert(call_ensures(T::add, (a.at(i, j), b.at(i, j)), out.at(i, j)));
    }
    assert(out.rows =~~= a.sum(b).rows);
}

/// The difference stores exactly the declared shape of the left operand.
pub proof fn lemma_difference_wf<T: Sub<Output = T>>(a: Grid<T>, b: Grid<T>)
    ensures
        a.difference(b).wf(),
        a.difference(b).nrows == a.nrows,
        a.difference(b).ncols == a.ncols,
{
}

/// Reading the difference of two grids of one shape gives, at every coordinate
/// inside that shape, the difference of what the two grids give there.
pub proof fn lemma_difference_get<T: Sub<Output = T>>(a: Grid<T>, b: Grid<T>, row: int, col: int)
    requires
        a.wf(),
        b.wf(),
        a.nrows == b.nrows,
        a.ncols == b.ncols,
        0 <= row < a.nrows,
        0 <= col < a.ncols,
    ensures
        a.get(row, col) is Some,
        b.get(row, col) is Some,
        a.difference(b).get(row, col) == Some(
            a.get(row, col).unwrap().sub_spec(b.get(row, col).unwrap()),
        ),
{
}

/// Where the element type's `-` obeys `sub_spec`, a grid made
/// cell by cell with it is the difference.
pub proof fn lemma_zip_is_difference<T: Sub<Output = T>>(out: Grid<T>, a: Grid<T>, b: Grid<T>)
    requires
        T::obeys_sub_spec(),
        out.is_zip(T::sub, a, b),
    ensures
        out == a.difference(b),
{
    assert forall|i: int, j: int| 0 <= i < a.nrows && 0 <= j < a.ncols implies out.rows[i][j]
        == a.at(i, j).sub_spec(b.at(i, j)) by {
        assert(call_ensures(T::sub, (a.at(i, j), b.at(i, j)), out.at(i, j)));
    }
    assert(out.rows =~~= a.difference(b).rows);
}

/// The product stores exactly the declared shape of the left operand.
pub proof fn lemma_product_wf<T: Mul<Output = T>>(a: Grid<T>, b: Grid<T>)
    ensures
        a.product(b).wf(),
        a.product(b).nrows == a.nrows,
        a.product(b).ncols == a.ncols,
{
}

/// Reading the product of two grids of one shape gives, at every coordinate
/// inside that shape, the product of what the two grids give there.
pub proof fn lemma_product_get<T: Mul<Output = T>>(a: Grid<T>, b: Grid<T>, row: int, col: int)
    requires
        a.wf(),
        b.wf(),
        a.nrows == b.nrows,
        a.ncols == b.ncols,
        0 <= row < a.nrows,
        0 <= col < a.ncols,
    ensures
        a.get(row, col) is Some,
        b.get(row, col) is Some,
        a.product(b).get(row, col) == Some(
            a.get(row, col).unwrap().mul_spec(b.get(row, col).unwrap()),
        ),
{
}

/// Where the element type's `*` obeys `mul_spec`, a grid made
/// cell by cell with it is the product.
pub proof fn lemma_zip_is_product<T: Mul<Output = T>>(out: Grid<T>, a: Grid<T>, b: Grid<T>)
    requires
        T::obeys_mul_spec(),
        out.is_zip(T::mul, a, b),
    ensures
        out == a.product(b),
{
    assert forall|i: int, j: int| 0 <= i < a.nrows && 0 <= j < a.ncols implies out.rows[i][j]
        == a.at(i, j).mul_spec(b.at(i, j)) by {
        assert(call_ensures(T::mul, (a.at(i, j), b.at(i, j)), out.at(i, j)));
    }
    assert(out.rows =~~= a.product(b).rows);
}

/// The quotient stores exactly the declared shape of the left operand.
pub proof fn lemma_quotient_wf<T: Div<Output = T>>(a: Grid<T>, b: Grid<T>)
    ensures
        a.quotient(b).wf(),
        a.quotient(b).nrows == a.nrows,
        a.quotient(b).ncols == a.ncols,
{
}

/// Reading the quotient of two grids of one shape gives, at every coordinate
/// inside that shape, the quotient of what the two grids give there.
pub proof fn lemma_quotient_get<T: Div<Output = T>>(a: Grid<T>, b: Grid<T>, row: int, col: int)
    requires
        a.wf(),
        b.wf(),
        a.nrows == b.nrows,
        a.ncols == b.ncols,
        0 <= row < a.nrows,
        0 <= col < a.ncols,
    ensures
        a.get(row, col) is Some,
        b.get(row, col) is Some,
        a.quotient(b).get(row, col) == Some(
            a.get(row, col).unwrap().div_spec(b.get(row, col).unwrap()),
        ),
{
}

/// Where the element type's `/` obeys `div_spec`, a grid made
/// cell by cell with it is the quotient.
pub proof fn lemma_zip_is_quotient<T: Div<Output = T>>(out: Grid<T>, a: Grid<T>, b: Grid<T>)
    requires
        T::obeys_div_spec(),
        out.is_zip(T::div, a, b),
    ensures
        out == a.quotient(b),
{
    assert forall|i: int, j: int| 0 <= i < a.nrows && 0 <= j < a.ncols implies out.rows[i][j]
        == a.at(i, j).div_spec(b.at(i, j)) by {
        assert(call_ensures(T::div, (a.at(i, j), b.at(i, j)), out.at(i, j)));
    }
    assert(out.rows =~~= a.quotient(b).rows);
}

/// The negation stores exactly the declared shape of its operand.
pub proof fn lemma_negation_wf<T: Neg<Output = T>>(a: Grid<T>)
    ensures
        a.negation().wf(),
        a.negation().nrows == a.nrows,
        a.negation().ncols == a.ncols,
{
}

/// Reading the negation of a grid gives, at every coordinate inside its
/// shape, the negation of what the grid gives there.
pub proof fn lemma_negation_get<T: Neg<Output = T>>(a: Grid<T>, row: int, col: int)
    requires
        a.wf(),
        0 <= row < a.nrows,
        0 <= col < a.ncols,
    ensures
        a.get(row, col) is Some,
        a.negation().get(row, col) == Some(a.get(row, col).unwrap().neg_spec()),
{
}

/// Where the element type's unary `-` obeys `neg_spec`, a grid made
/// cell by cell with it is the negation.
pub proof fn lemma_map_is_negation<T: Neg<Output = T>>(out: Grid<T>, a: Grid<T>)
    requires
        T::obeys_neg_spec(),
        out.is_map(T::neg, a),
    ensures
        out == a.negation(),
{
    assert forall|i: int, j: int| 0 <= i < a.nrows && 0 <= j < a.ncols implies out.rows[i][j]
        == a.at(i, j).neg_spec() by {
        assert(call_ensures(T::neg, (a.at(i, j),), out.at(i, j)));
    }
    assert(out.rows =~~= a.negation().rows);
}

} // verus!
