//! GGUF metadata key suffixes for transformer hyperparameters.
//!
//! GGUF stores architecture-specific keys as `{arch}.{suffix}` where `arch`
//! comes from `general.architecture` (e.g. `llama.block_count`).

use vstd::prelude::*;
use vstd::string::StringExecFns;

verus! {

/// `{arch}.{suffix}`.
pub open spec fn keyed_text(arch: Seq<char>, suffix: Seq<char>) -> Seq<char> {
    arch + "."@ + suffix
}

/// Build `{arch}.{suffix}` for a metadata lookup.
pub fn keyed(arch: &str, suffix: &str) -> (res: String)
    ensures
        res@ == keyed_text(arch@, suffix@),
{
    let mut out = arch.to_owned();
    out.append(".");
    out.append(suffix);
    out
}

/// Number of transformer blocks (`n_layer`).
pub const BLOCK_COUNT: &'static str = "block_count";
/// Maximum context length the model was trained / converted for.
pub const CONTEXT_LENGTH: &'static str = "context_length";
/// Hidden / embedding dimension (`n_embd`).
pub const EMBEDDING_LENGTH: &'static str = "embedding_length";
/// Intermediate `FFN` width (`n_ff` / `SwiGLU` intermediate size).
pub const FEED_FORWARD_LENGTH: &'static str = "feed_forward_length";
/// Optional vocabulary size (also implied by tokenizer tables).
pub const VOCAB_SIZE: &'static str = "vocab_size";
/// Attention head count (`n_head`).
pub const ATTENTION_HEAD_COUNT: &'static str = "attention.head_count";
/// `KV` head count for `GQA` (`n_head_kv`); defaults to head count when absent.
pub const ATTENTION_HEAD_COUNT_KV: &'static str = "attention.head_count_kv";
/// Optional per-head key dimension override.
pub const ATTENTION_KEY_LENGTH: &'static str = "attention.key_length";
/// Optional per-head value dimension override.
pub const ATTENTION_VALUE_LENGTH: &'static str = "attention.value_length";
/// `RMSNorm` epsilon.
pub const ATTENTION_LAYER_NORM_RMS_EPSILON: &'static str = "attention.layer_norm_rms_epsilon";
/// Rotary embedding dimension count.
pub const ROPE_DIMENSION_COUNT: &'static str = "rope.dimension_count";
/// `RoPE` base frequency θ (`rope_theta`).
pub const ROPE_FREQ_BASE: &'static str = "rope.freq_base";
/// Optional `RoPE` scaling algorithm name (`linear`, `yarn`, …).
pub const ROPE_SCALING_TYPE: &'static str = "rope.scaling.type";
/// Optional `RoPE` scaling factor.
pub const ROPE_SCALING_FACTOR: &'static str = "rope.scaling.factor";
/// Legacy linear scale key used by some older Llama GGUF exports.
pub const ROPE_SCALE: &'static str = "rope.scale";

} // verus!
