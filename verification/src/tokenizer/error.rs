//! Typed failures for vocabulary loading and tokenization.

use vstd::prelude::*;

verus! {

/// Errors from loading a vocabulary or encoding / decoding text.
#[derive(Debug, Clone, PartialEq, Eq)]
pub enum TokenizerError {
    /// Required GGUF metadata key is missing.
    MissingKey {
        /// Absent key, e.g. `tokenizer.ggml.tokens`.
        key: &'static str,
    },
    /// Metadata value has the wrong type for a known key.
    InvalidType {
        /// Metadata key being read.
        key: &'static str,
        /// Human-readable explanation.
        reason: String,
    },
    /// Parallel arrays disagree on length (tokens vs scores vs types).
    LengthMismatch {
        /// Which array failed the check.
        key: &'static str,
        /// Length implied by `tokenizer.ggml.tokens`.
        expected: usize,
        /// Actual length of this array.
        got: usize,
    },
    /// Token id is outside the loaded vocabulary.
    UnknownTokenId {
        /// Requested id.
        id: u32,
        /// `vocab.len()`.
        vocab_size: usize,
    },
    /// Encode could not map a span of text to any vocabulary piece.
    EncodeFailure {
        /// Short snippet around the failure for debugging.
        context: String,
    },
    /// Special-token id points outside the vocabulary.
    InvalidSpecialToken {
        /// Special role name (`bos`, `eos`, …).
        name: &'static str,
        /// Declared id.
        id: u32,
        /// Vocabulary length.
        vocab_size: usize,
    },
    /// Concatenated byte pieces did not form valid UTF-8.
    InvalidUtf8 {
        /// Underlying UTF-8 error display.
        reason: String,
    },
}

/// Model of a [`TokenizerError`]: kind, keys and numeric fields; explanation
/// texts are not part of the model.
pub enum TokenizerFault {
    MissingKey { key: Seq<char> },
    InvalidType { key: Seq<char> },
    LengthMismatch { key: Seq<char>, expected: usize, got: usize },
    UnknownTokenId { id: u32, vocab_size: usize },
    EncodeFailure { context: Seq<char> },
    InvalidSpecialToken { name: Seq<char>, id: u32, vocab_size: usize },
    InvalidUtf8,
}

impl View for TokenizerError {
    type V = TokenizerFault;

    open spec fn view(&self) -> TokenizerFault {
        match self {
            TokenizerError::MissingKey { key } => TokenizerFault::MissingKey { key: key@ },
            TokenizerError::InvalidType { key, .. } => TokenizerFault::InvalidType { key: key@ },
            TokenizerError::LengthMismatch { key, expected, got } => TokenizerFault::LengthMismatch {
                key: key@,
                expected: *expected,
                got: *got,
            },
            TokenizerError::UnknownTokenId { id, vocab_size } => TokenizerFault::UnknownTokenId {
                id: *id,
                vocab_size: *vocab_size,
            },
            TokenizerError::EncodeFailure { context } => TokenizerFault::EncodeFailure {
                context: context@,
            },
            TokenizerError::InvalidSpecialToken { name, id, vocab_size } =>
                TokenizerFault::InvalidSpecialToken { name: name@, id: *id, vocab_size: *vocab_size },
            TokenizerError::InvalidUtf8 { .. } => TokenizerFault::InvalidUtf8,
        }
    }
}

/// `true` when `res` failed with the tokenizer error whose model is `f`.
pub open spec fn is_tokenizer_fault<T>(res: Result<T, crate::errors::PhalanxError>, f: TokenizerFault) -> bool {
    res matches Err(crate::errors::PhalanxError::Tokenizer(e)) && e@ == f
}

} // verus!
