//! Vocabulary loading and tokenization for GGUF models.

pub mod decode;
pub mod encode;
pub mod engine;
pub mod error;
pub mod keys;
pub mod roundtrip;
pub mod special;
pub mod vocab;

pub use decode::DecodeOptions;
pub use encode::MergeRule;
pub use engine::{EncodeOptions, Tokenizer, TokenizerModel};
pub use error::{TokenizerError, TokenizerFault};
pub use special::SpecialTokens;
pub use vocab::{TokenType, Vocabulary};
