//! Elementwise arithmetic on tensors through the standard operators.
//!
//! Each binary operator walks the declared shape of its left operand and
//! reads both operands at every coordinate of it, so the right operand may
//! store more than the left one declares but never less. The result always
//! stores exactly the declared shape of the left operand.
//!
//! Tensors with equal views need not be equal as values, so no operator
//! claims to obey its `*_spec` function: each states its result through the
//! view instead.

use crate::laws::{
    lemma_zip_is_difference, lemma_zip_is_product, lemma_zip_is_quotient, lemma_zip_is_sum,
    lemma_map_is_negation,
};
use crate::tensor::Tensor;
use std::ops::{Add, Div, Mul, Neg, Sub};
use vstd::prelude::*;
use vstd::std_specs::ops::{AddSpec, DivSpec, MulSpec, NegSpec, SubSpec};

verus! {

/// Applies `op` to the cells of `lhs` and `rhs` at equal coordinates, over
/// the declared shape of `lhs`.
fn zip_cells<T: Copy, F: Fn(T, T) -> T>(
    lhs: &Tensor<T>,
    rhs: &Tensor<T>,
    op: F,
) -> (result: Tensor<T>)
    requires
        lhs@.covers(lhs@.nrows, lhs@.ncols),
        rhs@.covers(lhs@.nrows, lhs@.ncols),
        forall|i: int, j: int|
            0 <= i < lhs@.nrows && 0 <= j < lhs@.ncols ==> call_requires(
                op,
                (#[trigger] lhs@.at(i, j), rhs@.at(i, j)),
            ),
    ensures
        result@.is_zip(op, lhs@, rhs@),
{
    let mut data: Vec<Vec<T>> = Vec::new();
    let mut i: usize = 0;
    while i < lhs.nrows
        invariant
            i <= lhs.nrows,
            data@.len() == i,
            lhs@.covers(lhs@.nrows, lhs@.ncols),
            rhs@.covers(lhs@.nrows, lhs@.ncols),
            forall|k: int, l: int|
                0 <= k < lhs@.nrows && 0 <= l < lhs@.ncols ==> call_requires(
                    op,
                    (#[trigger] lhs@.at(k, l), rhs@.at(k, l)),
                ),
            forall|k: int| 0 <= k < i ==> (#[trigger] data@[k])@.len() == lhs.ncols,
            forall|k: int, l: int|
                0 <= k < i && 0 <= l < lhs.ncols ==> call_ensures(
                    op,
                    (lhs@.at(k, l), rhs@.at(k, l)),
                    #[trigger] data@[k]@[l],
                ),
        decreases lhs.nrows - i,
    {
        let mut row: Vec<T> = Vec::new();
        let mut j: usize = 0;
        while j < lhs.ncols
            invariant
                i < lhs.nrows,
                j <= lhs.ncols,
                row@.len() == j,
                lhs@.covers(lhs@.nrows, lhs@.ncols),
                rhs@.covers(lhs@.nrows, lhs@.ncols),
                forall|k: int, l: int|
                    0 <= k < lhs@.nrows && 0 <= l < lhs@.ncols ==> call_requires(
                        op,
                        (#[trigger] lhs@.at(k, l), rhs@.at(k, l)),
                    ),
                forall|l: int|
                    0 <= l < j ==> call_ensures(
                        op,
                        (lhs@.at(i as int, l), rhs@.at(i as int, l)),
                        #[trigger] row@[l],
                    ),
            decreases lhs.ncols - j,
        {
            assert(lhs@.stores(i as int, j as int));
            assert(rhs@.stores(i as int, j as int));
            assert(call_requires(op, (lhs@.at(i as int, j as int), rhs@.at(i as int, j as int))));
            let cell = op(lhs.data[i][j], rhs.data[i][j]);
            row.push(cell);
            j += 1;
        }
        data.push(row);
        i += 1;
    }
    Tensor { data, nrows: lhs.nrows, ncols: lhs.ncols }
}

/// Applies `op` to every cell of `src`, over its declared shape.
fn map_cells<T: Copy, F: Fn(T) -> T>(src: &Tensor<T>, op: F) -> (result: Tensor<T>)
    requires
        src@.covers(src@.nrows, src@.ncols),
        forall|i: int, j: int|
            0 <= i < src@.nrows && 0 <= j < src@.ncols ==> call_requires(
                op,
                (#[trigger] src@.at(i, j),),
            ),
    ensures
        result@.is_map(op, src@),
{
    let mut data: Vec<Vec<T>> = Vec::new();
    let mut i: usize = 0;
    while i < src.nrows
        invariant
            i <= src.nrows,
            data@.len() == i,
            src@.covers(src@.nrows, src@.ncols),
            forall|k: int, l: int|
                0 <= k < src@.nrows && 0 <= l < src@.ncols ==> call_requires(
                    op,
                    (#[trigger] src@.at(k, l),),
                ),
            forall|k: int| 0 <= k < i ==> (#[trigger] data@[k])@.len() == src.ncols,
            forall|k: int, l: int|
                0 <= k < i && 0 <= l < src.ncols ==> call_ensures(
                    op,
                    (src@.at(k, l),),
                    #[trigger] data@[k]@[l],
                ),
        decreases src.nrows - i,
    {
        let mut row: Vec<T> = Vec::new();
        let mut j: usize = 0;
        while j < src.ncols
            invariant
                i < src.nrows,
                j <= src.ncols,
                row@.len() == j,
                src@.covers(src@.nrows, src@.ncols),
                forall|k: int, l: int|
                    0 <= k < src@.nrows && 0 <= l < src@.ncols ==> call_requires(
                        op,
                        (#[trigger] src@.at(k, l),),
                    ),
                forall|l: int|
                    0 <= l < j ==> call_ensures(op, (src@.at(i as int, l),), #[trigger] row@[l]),
            decreases src.ncols - j,
        {
            assert(src@.stores(i as int, j as int));
            assert(call_requires(op, (src@.at(i as int, j as int),)));
            let cell = op(src.data[i][j]);
            row.push(cell);
            j += 1;
        }
        data.push(row);
        i += 1;
    }
    Tensor { data, nrows: src.nrows, ncols: src.ncols }
}

impl<T: Copy + Add<Output = T>> vstd::std_specs::ops::AddSpecImpl for Tensor<T> {
    open spec fn obeys_add_spec() -> bool {
        false
    }

    /// Both operands store every cell inside the declared shape of `self`,
    /// and the element type accepts each pair of cells.
    open spec fn add_req(self, rhs: Self) -> bool {
        &&& self@.covers(self@.nrows, self@.ncols)
        &&& rhs@.covers(self@.nrows, self@.ncols)
        &&& self@.can_add(rhs@)
    }

    /// Some tensor whose view is the sum.
    open spec fn add_spec(self, rhs: Self) -> Self {
        choose|t: Self| t@ == self@.sum(rhs@)
    }
}

impl<T: Copy + Add<Output = T>> Add for Tensor<T> {
    type Output = Self;

    /// Adds the operands cell by cell.
    ///
    /// Every cell of the result is what the element type's `+` returns for
    /// the two cells at its coordinate. Where that operator obeys its
    /// spec function, the result is `self@.sum(other@)`. The caller answers
    /// for `add_req`; outside verification a right operand that stores too
    /// little ends in the index-out-of-bounds panic of the first missing cell.
    fn add(self, other: Self) -> (result: Self)
        ensures
            result@.is_zip(T::add, self@, other@),
            T::obeys_add_spec() ==> result@ == self@.sum(other@),
    {
        let result = zip_cells(&self, &other, T::add);
        proof {
            if T::obeys_add_spec() {
                lemma_zip_is_sum(result@, self@, other@);
            }
        }
        result
    }
}

impl<T: Copy + Sub<Output = T>> vstd::std_specs::ops::SubSpecImpl for Tensor<T> {
    open spec fn obeys_sub_spec() -> bool {
        false
    }

    /// Both operands store every cell inside the declared shape of `self`,
    /// and the element type accepts each pair of cells.
    open spec fn sub_req(self, rhs: Self) -> bool {
        &&& self@.covers(self@.nrows, self@.ncols)
        &&& rhs@.covers(self@.nrows, self@.ncols)
        &&& self@.can_sub(rhs@)
    }

    /// Some tensor whose view is the difference.
    open spec fn sub_spec(self, rhs: Self) -> Self {
        choose|t: Self| t@ == self@.difference(rhs@)
    }
}

impl<T: Copy + Sub<Output = T>> Sub for Tensor<T> {
    type Output = Self;

    /// Subtracts `other` from `self` cell by cell.
    ///
    /// Every cell of the result is what the element type's `-` returns for
    /// the two cells at its coordinate. Where that operator obeys its
    /// spec function, the result is `self@.difference(other@)`. The caller answers
    /// for `sub_req`; outside verification a right operand that stores too
    /// little ends in the index-out-of-bounds panic of the first missing cell.
    fn sub(self, other: Self) -> (result: Self)
        ensures
            result@.is_zip(T::sub, self@, other@),
            T::obeys_sub_spec() ==> result@ == self@.difference(other@),
    {
        let result = zip_cells(&self, &other, T::sub);
        proof {
            if T::obeys_sub_spec() {
                lemma_zip_is_difference(result@, self@, other@);
            }
        }
        result
    }
}

impl<T: Copy + Mul<Output = T>> vstd::std_specs::ops::MulSpecImpl for Tensor<T> {
    open spec fn obeys_mul_spec() -> bool {
        false
    }

    /// Both operands store every cell inside the declared shape of `self`,
    /// and the element type accepts each pair of cells.
    open spec fn mul_req(self, rhs: Self) -> bool {
        &&& self@.covers(self@.nrows, self@.ncols)
        &&& rhs@.covers(self@.nrows, self@.ncols)
        &&& self@.can_mul(rhs@)
    }

    /// Some tensor whose view is the product.
    open spec fn mul_spec(self, rhs: Self) -> Self {
        choose|t: Self| t@ == self@.product(rhs@)
    }
}

impl<T: Copy + Mul<Output = T>> Mul for Tensor<T> {
    type Output = Self;

    /// Multiplies the operands cell by cell.
    ///
    /// Every cell of the result is what the element type's `*` returns for
    /// the two cells at its coordinate. Where that operator obeys its
    /// spec function, the result is `self@.product(other@)`. The caller answers
    /// for `mul_req`; outside verification a right operand that stores too
    /// little ends in the index-out-of-bounds panic of the first missing cell.
    fn mul(self, other: Self) -> (result: Self)
        ensures
            result@.is_zip(T::mul, self@, other@),
            T::obeys_mul_spec() ==> result@ == self@.product(other@),
    {
        let result = zip_cells(&self, &other, T::mul);
        proof {
            if T::obeys_mul_spec() {
                lemma_zip_is_product(result@, self@, other@);
            }
        }
        result
    }
}

impl<T: Copy + Div<Output = T>> vstd::std_specs::ops::DivSpecImpl for Tensor<T> {
    open spec fn obeys_div_spec() -> bool {
        false
    }

    /// Both operands store every cell inside the declared shape of `self`,
    /// and the element type accepts each pair of cells.
    open spec fn div_req(self, rhs: Self) -> bool {
        &&& self@.covers(self@.nrows, self@.ncols)
        &&& rhs@.covers(self@.nrows, self@.ncols)
        &&& self@.can_div(rhs@)
    }

    /// Some tensor whose view is the quotient.
    open spec fn div_spec(self, rhs: Self) -> Self {
        choose|t: Self| t@ == self@.quotient(rhs@)
    }
}

impl<T: Copy + Div<Output = T>> Div for Tensor<T> {
    type Output = Self;

    /// Divides `self` by `other` cell by cell.
    ///
    /// Every cell of the result is what the element type's `/` returns for
    /// the two cells at its coordinate. Where that operator obeys its
    /// spec function, the result is `self@.quotient(other@)`. The caller answers
    /// for `div_req`; outside verification a right operand that stores too
    /// little ends in the index-out-of-bounds panic of the first missing cell.
    fn div(self, other: Self) -> (result: Self)
        ensures
            result@.is_zip(T::div, self@, other@),
            T::obeys_div_spec() ==> result@ == self@.quotient(other@),
    {
        let result = zip_cells(&self, &other, T::div);
        proof {
            if T::obeys_div_spec() {
                lemma_zip_is_quotient(result@, self@, other@);
            }
        }
        result
    }
}

impl<T: Copy + Neg<Output = T>> vstd::std_specs::ops::NegSpecImpl for Tensor<T> {
    open spec fn obeys_neg_spec() -> bool {
        false
    }

    /// The operand stores every cell inside its declared shape, and the
    /// element type accepts each of them.
    open spec fn neg_req(self) -> bool {
        &&& self@.covers(self@.nrows, self@.ncols)
        &&& self@.can_neg()
    }

    /// Some tensor whose view is the negation.
    open spec fn neg_spec(self) -> Self {
        choose|t: Self| t@ == self@.negation()
    }
}

impl<T: Copy + Neg<Output = T>> Neg for Tensor<T> {
    type Output = Self;

    /// Negates every cell.
    ///
    /// Every cell of the result is what the element type's unary `-` returns
    /// for the cell at its coordinate. Where that operator obeys its
    /// spec function, the result is `self@.negation()`. The caller answers
    /// for `neg_req`.
    fn neg(self) -> (result: Self)
        ensures
            result@.is_map(T::neg, self@),
            T::obeys_neg_spec() ==> result@ == self@.negation(),
    {
        let result = map_cells(&self, T::neg);
        proof {
            if T::obeys_neg_spec() {
                lemma_map_is_negation(result@, self@);
            }
        }
        result
    }
}

} // verus!
