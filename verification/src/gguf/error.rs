//! Typed failures for GGUF header / metadata / tensor-info parsing.

use vstd::prelude::*;

verus! {

/// Errors produced while validating or decoding a GGUF container.
#[derive(Debug, Clone, PartialEq, Eq)]
pub enum GgufError {
    /// Magic bytes were not `GGUF`.
    InvalidMagic {
        /// Expected magic (`b"GGUF"`).
        expected: [u8; 4],
        /// Bytes actually read.
        got: [u8; 4],
    },
    /// Format version is not supported by this reader.
    UnsupportedVersion {
        /// Version field from the file.
        version: u32,
        /// Versions this build accepts.
        supported: [u32; 2],
    },
    /// Unexpected end of input while reading a field.
    UnexpectedEof {
        /// Field or section being decoded.
        context: &'static str,
    },
    /// A length / count exceeded a safety limit.
    LimitExceeded {
        /// What was being sized.
        context: &'static str,
        /// Declared length.
        got: u64,
        /// Configured maximum.
        limit: u64,
    },
    /// Metadata or tensor field failed a format rule.
    Invalid {
        /// Field or section name.
        context: &'static str,
        /// Human-readable explanation.
        reason: String,
    },
    /// Unknown `gguf_metadata_value_type` discriminant.
    UnknownValueType {
        /// Raw type tag from the file.
        type_id: u32,
    },
    /// Boolean metadata byte was not `0` or `1`.
    InvalidBool {
        /// Raw byte.
        value: u8,
    },
    /// UTF-8 decoding failed for a GGUF string.
    InvalidUtf8 {
        /// Key, tensor name, or string value.
        context: &'static str,
        /// Underlying error display.
        reason: String,
    },
}

} // verus!

verus! {

/// Model of a [`GgufError`]: the failure kind with its context and values.
/// Human-readable `reason` texts are not part of the model.
pub enum GgufFault {
    InvalidMagic { expected: Seq<u8>, got: Seq<u8> },
    UnsupportedVersion { version: u32, supported: Seq<u32> },
    UnexpectedEof { context: Seq<char> },
    LimitExceeded { context: Seq<char>, got: u64, limit: u64 },
    Invalid { context: Seq<char> },
    UnknownValueType { type_id: u32 },
    InvalidBool { value: u8 },
    InvalidUtf8 { context: Seq<char> },
}

impl View for GgufError {
    type V = GgufFault;

    open spec fn view(&self) -> GgufFault {
        match self {
            GgufError::InvalidMagic { expected, got } => GgufFault::InvalidMagic {
                expected: expected@,
                got: got@,
            },
            GgufError::UnsupportedVersion { version, supported } => GgufFault::UnsupportedVersion {
                version: *version,
                supported: supported@,
            },
            GgufError::UnexpectedEof { context } => GgufFault::UnexpectedEof { context: context@ },
            GgufError::LimitExceeded { context, got, limit } => GgufFault::LimitExceeded {
                context: context@,
                got: *got,
                limit: *limit,
            },
            GgufError::Invalid { context, .. } => GgufFault::Invalid { context: context@ },
            GgufError::UnknownValueType { type_id } => GgufFault::UnknownValueType {
                type_id: *type_id,
            },
            GgufError::InvalidBool { value } => GgufFault::InvalidBool { value: *value },
            GgufError::InvalidUtf8 { context, .. } => GgufFault::InvalidUtf8 { context: context@ },
        }
    }
}

} // verus!
