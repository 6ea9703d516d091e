//! Typed failures for shape checks and tensor kernels.

use vstd::prelude::*;

verus! {

/// Errors produced by tensor construction and operations.
#[derive(Debug, Clone, PartialEq, Eq)]
pub enum TensorError {
    /// Shape failed validation (empty rank, etc.).
    InvalidShape {
        /// Human-readable explanation.
        reason: String,
    },
    /// Buffer length does not match `shape.numel()`.
    DataLengthMismatch {
        /// Shape that was requested.
        shape: String,
        /// `shape.numel()`.
        expected: usize,
        /// Caller-provided element count.
        got: usize,
    },
    /// Two operands disagree on shape where equality is required.
    ShapeMismatch {
        /// Expected shape display.
        expected: String,
        /// Actual shape display.
        got: String,
    },
    /// Operation requires a specific rank (e.g. matmul needs rank 2).
    RankMismatch {
        /// Required rank.
        expected: usize,
        /// Actual rank.
        got: usize,
    },
    /// Multi-index refers past a dimension.
    IndexOutOfBounds {
        /// Axis that was indexed.
        axis: usize,
        /// Requested index.
        index: usize,
        /// Size of that axis.
        dim: usize,
    },
    /// Matrix-multiply inner dimensions are incompatible.
    MatMulIncompatible {
        /// Left-hand shape display.
        lhs: String,
        /// Right-hand shape display.
        rhs: String,
    },
}

} // verus!

verus! {

/// Model of a [`TensorError`]: the kind and its numeric fields; shape and
/// reason texts are not part of the model.
pub enum TensorFault {
    InvalidShape,
    DataLengthMismatch { expected: usize, got: usize },
    ShapeMismatch,
    RankMismatch { expected: usize, got: usize },
    IndexOutOfBounds { axis: usize, index: usize, dim: usize },
    MatMulIncompatible,
}

impl View for TensorError {
    type V = TensorFault;

    open spec fn view(&self) -> TensorFault {
        match self {
            TensorError::InvalidShape { .. } => TensorFault::InvalidShape,
            TensorError::DataLengthMismatch { expected, got, .. } => TensorFault::DataLengthMismatch {
                expected: *expected,
                got: *got,
            },
            TensorError::ShapeMismatch { .. } => TensorFault::ShapeMismatch,
            TensorError::RankMismatch { expected, got } => TensorFault::RankMismatch {
                expected: *expected,
                got: *got,
            },
            TensorError::IndexOutOfBounds { axis, index, dim } => TensorFault::IndexOutOfBounds {
                axis: *axis,
                index: *index,
                dim: *dim,
            },
            TensorError::MatMulIncompatible { .. } => TensorFault::MatMulIncompatible,
        }
    }
}

} // verus!
