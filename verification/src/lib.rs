//! Generic two-dimensional containers: a heap-backed `Matrix` whose shape is
//! chosen at run time and a `StaticMatrix` whose shape is part of its type.
//! Both are built from a default, zero or one value or as an identity, are
//! indexed by a `(row, column)` pair, and render to a short tag and to a
//! grid of text.

pub mod grid;
pub mod identities;
pub mod matrix;
pub mod static_matrix;
pub mod tensor;
pub mod text;

pub use crate::identities::{HasOne, HasZero};
pub use crate::matrix::Matrix;
pub use crate::static_matrix::StaticMatrix;
pub use crate::tensor::Tensor;
pub use crate::text::DebugForm;
