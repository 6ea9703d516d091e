//! Typed failures for weight loading, mmap, and payload resolution.

use vstd::prelude::*;

use crate::gguf::GgmlType;

verus! {

/// Errors from mapping a GGUF file and resolving tensor payloads.
#[derive(Debug, Clone, PartialEq, Eq)]
pub enum WeightsError {
    /// Named tensor was not present in the GGUF directory.
    TensorNotFound {
        /// Requested tensor name.
        name: String,
    },
    /// Element count overflowed or was zero when sizing a payload.
    InvalidElementCount {
        /// Tensor name.
        name: String,
    },
    /// `ggml_type` has no known block layout in this build.
    UnsupportedType {
        /// Tensor name.
        name: String,
        /// Type tag.
        ggml_type: GgmlType,
    },
    /// Element count is not a multiple of the quantization block size.
    MisalignedElements {
        /// Tensor name.
        name: String,
        /// Product of dimensions.
        numel: u64,
        /// Elements per quant block.
        block_size: u64,
        /// Type tag.
        ggml_type: GgmlType,
    },
    /// Declared payload extends past the end of the mapped file.
    OutOfBounds {
        /// Tensor name.
        name: String,
        /// Absolute start offset.
        start: u64,
        /// Exclusive end offset.
        end: u64,
        /// Mapped file length.
        file_len: u64,
        /// Type tag.
        ggml_type: GgmlType,
    },
    /// Materialization was requested for a type that is not yet dequantized.
    DequantNotImplemented {
        /// Tensor name.
        name: String,
        /// Type tag.
        ggml_type: GgmlType,
    },
    /// Payload byte length did not match the float element expectation.
    InvalidFloatPayload {
        /// Tensor name.
        name: String,
        /// Byte length observed.
        got: usize,
    },
    /// Memory-map failed.
    Mmap {
        /// Human-readable OS error.
        reason: String,
    },
}

/// Model of a [`WeightsError`]: kind, names as character sequences and the
/// numeric fields; explanation texts are not part of the model.
pub enum WeightsFault {
    TensorNotFound { name: Seq<char> },
    InvalidElementCount { name: Seq<char> },
    UnsupportedType { name: Seq<char>, ggml_type: GgmlType },
    MisalignedElements { name: Seq<char>, numel: u64, block_size: u64, ggml_type: GgmlType },
    OutOfBounds { name: Seq<char>, start: u64, end: u64, file_len: u64, ggml_type: GgmlType },
    DequantNotImplemented { name: Seq<char>, ggml_type: GgmlType },
    InvalidFloatPayload { name: Seq<char>, got: usize },
    Mmap,
}

impl View for WeightsError {
    type V = WeightsFault;

    open spec fn view(&self) -> WeightsFault {
        match self {
            WeightsError::TensorNotFound { name } => WeightsFault::TensorNotFound { name: name@ },
            WeightsError::InvalidElementCount { name } => WeightsFault::InvalidElementCount {
                name: name@,
            },
            WeightsError::UnsupportedType { name, ggml_type } => WeightsFault::UnsupportedType {
                name: name@,
                ggml_type: *ggml_type,
            },
            WeightsError::MisalignedElements { name, numel, block_size, ggml_type } =>
                WeightsFault::MisalignedElements {
                name: name@,
                numel: *numel,
                block_size: *block_size,
                ggml_type: *ggml_type,
            },
            WeightsError::OutOfBounds { name, start, end, file_len, ggml_type } =>
                WeightsFault::OutOfBounds {
                name: name@,
                start: *start,
                end: *end,
                file_len: *file_len,
                ggml_type: *ggml_type,
            },
            WeightsError::DequantNotImplemented { name, ggml_type } =>
                WeightsFault::DequantNotImplemented { name: name@, ggml_type: *ggml_type },
            WeightsError::InvalidFloatPayload { name, got } => WeightsFault::InvalidFloatPayload {
                name: name@,
                got: *got,
            },
            WeightsError::Mmap { .. } => WeightsFault::Mmap,
        }
    }
}

} // verus!
