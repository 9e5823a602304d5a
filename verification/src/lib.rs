//! A dense two-dimensional numeric container with elementwise arithmetic.
//!
//! [`Tensor`] owns a rectangular grid of elements together with its declared
//! shape. Every contract is stated over [`grid::Grid`], the mathematical
//! picture of a tensor: a declared shape and the rows that are stored.

pub mod error;
pub mod grid;
pub mod laws;
pub mod matmul;
pub mod ops;
pub mod tensor;

pub use crate::error::TensorError;
pub use crate::grid::Grid;
pub use crate::tensor::Tensor;
