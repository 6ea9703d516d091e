//! Typed failures for transformer layer loading and shape checks.

use vstd::prelude::*;

verus! {

/// Errors from loading or executing decoder layers.
#[derive(Debug, Clone, PartialEq, Eq)]
pub enum LayersError {
    /// Required weight tensor was not found in the GGUF directory.
    MissingWeight {
        /// Expected tensor name, e.g. `token_embd.weight`.
        name: &'static str,
    },
    /// On-disk tensor rank / dims are incompatible with the layer.
    InvalidWeightShape {
        /// Tensor name.
        name: &'static str,
        /// Human-readable explanation.
        reason: String,
    },
    /// Weight dims disagree with the model config.
    ConfigMismatch {
        /// Tensor name.
        name: &'static str,
        /// Human-readable explanation.
        reason: String,
    },
    /// Token id is outside the embedding table.
    TokenOutOfRange {
        /// Requested id.
        id: u32,
        /// Rows in the embedding table.
        vocab_size: usize,
    },
    /// Activation tensor has the wrong rank or sizes for a kernel.
    InvalidActivationShape {
        /// Kernel name (`rope`, …).
        op: &'static str,
        /// Human-readable explanation.
        reason: String,
    },
    /// Absolute position exceeds the precomputed `RoPE` cache.
    RopePositionOutOfRange {
        /// Requested absolute position.
        position: usize,
        /// Cached positions (`0 .. max_position`).
        max_position: usize,
    },
}

/// Model of a [`LayersError`]: kind, weight / op names and numeric fields;
/// explanation texts are not part of the model.
pub enum LayersFault {
    MissingWeight { name: Seq<char> },
    InvalidWeightShape { name: Seq<char> },
    ConfigMismatch { name: Seq<char> },
    TokenOutOfRange { id: u32, vocab_size: usize },
    InvalidActivationShape { op: Seq<char> },
    RopePositionOutOfRange { position: usize, max_position: usize },
}

impl View for LayersError {
    type V = LayersFault;

    open spec fn view(&self) -> LayersFault {
        match self {
            LayersError::MissingWeight { name } => LayersFault::MissingWeight { name: name@ },
            LayersError::InvalidWeightShape { name, .. } => LayersFault::InvalidWeightShape { name: name@ },
            LayersError::ConfigMismatch { name, .. } => LayersFault::ConfigMismatch { name: name@ },
            LayersError::TokenOutOfRange { id, vocab_size } => LayersFault::TokenOutOfRange {
                id: *id,
                vocab_size: *vocab_size,
            },
            LayersError::InvalidActivationShape { op, .. } => LayersFault::InvalidActivationShape {
                op: op@,
            },
            LayersError::RopePositionOutOfRange { position, max_position } =>
                LayersFault::RopePositionOutOfRange { position: *position, max_position: *max_position },
        }
    }
}

/// `true` when `res` failed with the layers error whose model is `f`.
pub open spec fn is_layers_fault<T>(res: Result<T, crate::errors::PhalanxError>, f: LayersFault) -> bool {
    res matches Err(crate::errors::PhalanxError::Layers(e)) && e@ == f
}

/// Wraps a layers error into the library error.
pub fn layers_err(e: LayersError) -> (res: crate::errors::PhalanxError)
    ensures
        res == crate::errors::PhalanxError::Layers(e),
{
    crate::errors::PhalanxError::Layers(e)
}

} // verus!
