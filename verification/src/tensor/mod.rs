//! Tensor abstraction: shapes, contiguous row-major storage and the data
//! movements (gather, reshape, transpose) that layers build on.

pub mod dense;
pub mod dtype;
pub mod error;
pub mod shape;

pub use dense::Tensor;
pub use dtype::DType;
pub use error::{TensorError, TensorFault};
pub use shape::Shape;
