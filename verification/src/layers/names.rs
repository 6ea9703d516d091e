//! GGUF tensor names of the per-block weights (`blk.{i}.*`) and the global
//! ones.

use vstd::prelude::*;
use vstd::string::StringExecFns;

use crate::text::{decimal, decimal_string};

verus! {

/// Prefix shared by every per-block tensor.
pub const BLOCK_PREFIX: &'static str = "blk.";
/// Prefix of the per-block attention tensors.
pub const ATTN_WEIGHT_PREFIX: &'static str = "blk.";
/// Prefix of the per-block `RMSNorm` tensors.
pub const ATTN_NORM_WEIGHT_PREFIX: &'static str = "blk.";
/// Prefix of the per-block FFN tensors.
pub const FFN_WEIGHT_PREFIX: &'static str = "blk.";
/// GGUF suffix for the query projection.
pub const ATTN_Q_WEIGHT_SUFFIX: &'static str = ".attn_q.weight";
/// GGUF suffix for the key projection.
pub const ATTN_K_WEIGHT_SUFFIX: &'static str = ".attn_k.weight";
/// GGUF suffix for the value projection.
pub const ATTN_V_WEIGHT_SUFFIX: &'static str = ".attn_v.weight";
/// GGUF suffix for the output projection.
pub const ATTN_OUTPUT_WEIGHT_SUFFIX: &'static str = ".attn_output.weight";
/// GGUF suffix for the attention `RMSNorm` γ.
pub const ATTN_NORM_WEIGHT_SUFFIX: &'static str = ".attn_norm.weight";
/// GGUF suffix for the FFN `RMSNorm` γ.
pub const FFN_NORM_WEIGHT_SUFFIX: &'static str = ".ffn_norm.weight";
/// Suffix of the FFN gate weight.
pub const FFN_GATE_WEIGHT_SUFFIX: &'static str = ".ffn_gate.weight";
/// GGUF suffix for the up projection.
pub const FFN_UP_WEIGHT_SUFFIX: &'static str = ".ffn_up.weight";
/// GGUF suffix for the down projection.
pub const FFN_DOWN_WEIGHT_SUFFIX: &'static str = ".ffn_down.weight";
/// GGUF name of the token embedding matrix.
pub const TOKEN_EMBD_WEIGHT: &'static str = "token_embd.weight";
/// GGUF name of the final output `RMSNorm` γ.
pub const OUTPUT_NORM_WEIGHT: &'static str = "output_norm.weight";

/// `blk.{layer}{suffix}`.
pub open spec fn block_name(layer: nat, suffix: Seq<char>) -> Seq<char> {
    BLOCK_PREFIX@ + decimal(layer) + suffix
}

fn block_weight_name(layer: usize, suffix: &str) -> (res: String)
    ensures
        res@ == block_name(layer as nat, suffix@),
{
    let mut out = BLOCK_PREFIX.to_owned();
    out.append(decimal_string(layer as u64).as_str());
    out.append(suffix);
    out
}

/// Name of layer `layer`'s query weight.
pub fn attn_q_weight_name(layer: usize) -> (res: String)
    ensures
        res@ == block_name(layer as nat, ATTN_Q_WEIGHT_SUFFIX@),
{
    block_weight_name(layer, ATTN_Q_WEIGHT_SUFFIX)
}

/// Name of layer `layer`'s key weight.
pub fn attn_k_weight_name(layer: usize) -> (res: String)
    ensures
        res@ == block_name(layer as nat, ATTN_K_WEIGHT_SUFFIX@),
{
    block_weight_name(layer, ATTN_K_WEIGHT_SUFFIX)
}

/// Name of layer `layer`'s value weight.
pub fn attn_v_weight_name(layer: usize) -> (res: String)
    ensures
        res@ == block_name(layer as nat, ATTN_V_WEIGHT_SUFFIX@),
{
    block_weight_name(layer, ATTN_V_WEIGHT_SUFFIX)
}

/// Name of layer `layer`'s attention output weight.
pub fn attn_output_weight_name(layer: usize) -> (res: String)
    ensures
        res@ == block_name(layer as nat, ATTN_OUTPUT_WEIGHT_SUFFIX@),
{
    block_weight_name(layer, ATTN_OUTPUT_WEIGHT_SUFFIX)
}

/// Name of layer `layer`'s attention `RMSNorm` γ.
pub fn attn_norm_weight_name(layer: usize) -> (res: String)
    ensures
        res@ == block_name(layer as nat, ATTN_NORM_WEIGHT_SUFFIX@),
{
    block_weight_name(layer, ATTN_NORM_WEIGHT_SUFFIX)
}

/// Name of layer `layer`'s FFN `RMSNorm` γ.
pub fn ffn_norm_weight_name(layer: usize) -> (res: String)
    ensures
        res@ == block_name(layer as nat, FFN_NORM_WEIGHT_SUFFIX@),
{
    block_weight_name(layer, FFN_NORM_WEIGHT_SUFFIX)
}

/// Name of layer `layer`'s gate weight.
pub fn ffn_gate_weight_name(layer: usize) -> (res: String)
    ensures
        res@ == block_name(layer as nat, FFN_GATE_WEIGHT_SUFFIX@),
{
    block_weight_name(layer, FFN_GATE_WEIGHT_SUFFIX)
}

/// Name of layer `layer`'s up weight.
pub fn ffn_up_weight_name(layer: usize) -> (res: String)
    ensures
        res@ == block_name(layer as nat, FFN_UP_WEIGHT_SUFFIX@),
{
    block_weight_name(layer, FFN_UP_WEIGHT_SUFFIX)
}

/// Name of layer `layer`'s down weight.
pub fn ffn_down_weight_name(layer: usize) -> (res: String)
    ensures
        res@ == block_name(layer as nat, FFN_DOWN_WEIGHT_SUFFIX@),
{
    block_weight_name(layer, FFN_DOWN_WEIGHT_SUFFIX)
}

} // verus!
