//! Standardized GGUF tokenizer metadata keys.

use vstd::prelude::*;

verus! {

/// Tokenizer family string (`llama`, `gpt2`, …).
pub const MODEL: &'static str = "tokenizer.ggml.model";
/// Vocabulary pieces indexed by token id.
pub const TOKENS: &'static str = "tokenizer.ggml.tokens";
/// Optional per-token scores (`SentencePiece`).
pub const SCORES: &'static str = "tokenizer.ggml.scores";
/// Optional per-token type tags.
pub const TOKEN_TYPE: &'static str = "tokenizer.ggml.token_type";
/// Optional BPE merge rules (`"left right"`).
pub const MERGES: &'static str = "tokenizer.ggml.merges";
/// Optional post-training added tokens.
pub const ADDED_TOKENS: &'static str = "tokenizer.ggml.added_tokens";
/// Beginning-of-sequence token id.
pub const BOS_TOKEN_ID: &'static str = "tokenizer.ggml.bos_token_id";
/// End-of-sequence token id.
pub const EOS_TOKEN_ID: &'static str = "tokenizer.ggml.eos_token_id";
/// Unknown-token id.
pub const UNKNOWN_TOKEN_ID: &'static str = "tokenizer.ggml.unknown_token_id";
/// Separator token id.
pub const SEPARATOR_TOKEN_ID: &'static str = "tokenizer.ggml.separator_token_id";
/// Padding token id.
pub const PADDING_TOKEN_ID: &'static str = "tokenizer.ggml.padding_token_id";

} // verus!
