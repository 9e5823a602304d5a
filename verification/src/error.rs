//! The failures that constructing a tensor can report.

use vstd::prelude::*;

verus! {

/// Why a tensor could not be built.
#[derive(Debug, Clone, Copy, PartialEq, Eq, Structural)]
pub enum TensorError {
    /// The row data has no rows, so no column count can be read from it.
    InvalidShape,
}

} // verus!
