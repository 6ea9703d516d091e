//! Phalanx runtime library: GGUF container parsing, tensor shapes and data
//! movement, tokenization, model configuration, weight resolution and layer
//! validation, with machine-checked contracts.
//!
//! Floating-point values are carried as IEEE-754 bit patterns
//! ([`floatbits`]); the float kernels run on top of this library.

use vstd::prelude::*;

pub mod errors;
pub mod floatbits;
pub mod gguf;
pub mod layers;
pub mod messages;
pub mod model;
pub mod search;
pub mod tensor;
pub mod text;
pub mod tokenizer;
pub mod utils;
pub mod weights;

pub use errors::{PhalanxError, Result};
pub use gguf::{GgmlType, GgufError, GgufFile, GgufHeader, MetadataValue, TensorInfo};
pub use layers::{
    attn_k_weight_name, attn_norm_weight_name, attn_output_weight_name, attn_q_weight_name,
    attn_v_weight_name, ffn_down_weight_name, ffn_gate_weight_name, ffn_norm_weight_name,
    ffn_up_weight_name, Attention, EmbeddingTable, LayersError, RmsNorm, Rope, SwiGlu,
    OUTPUT_NORM_WEIGHT, TOKEN_EMBD_WEIGHT,
};
pub use model::{Architecture, AttentionConfig, ModelConfig, ModelError, RopeConfig, RopeScaling};
pub use tensor::{DType, Shape, Tensor, TensorError};
pub use tokenizer::{
    DecodeOptions, EncodeOptions, MergeRule, SpecialTokens, Tokenizer, TokenizerError,
    TokenizerModel, Vocabulary,
};
pub use utils::LogConfig;
pub use weights::{QuantMeta, WeightSet, WeightStorage, WeightTensor, WeightsError};

verus! {

/// Library version string, matching the package version.
pub const VERSION: &'static str = "0.1.0";

/// Human-readable runtime name used in banners and logs.
pub const RUNTIME_NAME: &'static str = "Phalanx Runtime";

} // verus!
