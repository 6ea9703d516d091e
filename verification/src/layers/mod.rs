//! Decoder layers: weight names, weight-shape validation, and the index
//! permutations (embedding gather, head split / merge, KV expansion) that the
//! float kernels run on.

pub mod attention;
pub mod embedding;
pub mod error;
pub mod heads;
pub mod matrix;
pub mod names;
pub mod rmsnorm;
pub mod rope;
pub mod swiglu;

pub use attention::Attention;
pub use embedding::EmbeddingTable;
pub use error::{LayersError, LayersFault};
pub use rmsnorm::RmsNorm;
pub use rope::Rope;
pub use swiglu::SwiGlu;
pub use names::{
    attn_k_weight_name, attn_norm_weight_name, attn_output_weight_name, attn_q_weight_name,
    attn_v_weight_name, ffn_down_weight_name, ffn_gate_weight_name, ffn_norm_weight_name,
    ffn_up_weight_name, OUTPUT_NORM_WEIGHT, TOKEN_EMBD_WEIGHT,
};
