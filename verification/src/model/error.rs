//! Typed failures for model architecture / hyperparameter loading.

use vstd::prelude::*;

verus! {

/// Errors from parsing or validating a transformer model configuration.
#[derive(Debug, Clone, PartialEq)]
pub enum ModelError {
    /// `general.architecture` is missing from GGUF metadata.
    MissingArchitecture,
    /// Architecture string is known but not yet supported by this runtime.
    UnsupportedArchitecture {
        /// Value of `general.architecture`.
        architecture: String,
    },
    /// Required `{arch}.*` hyperparameter key is absent.
    MissingKey {
        /// Full metadata key, e.g. `llama.block_count`.
        key: String,
    },
    /// Metadata value has the wrong type for a known key.
    InvalidType {
        /// Full metadata key being read.
        key: String,
        /// Human-readable explanation.
        reason: String,
    },
    /// A hyperparameter is present but fails structural validation.
    InvalidConfig {
        /// Validation failure explanation.
        reason: String,
    },
}

/// Model of a [`ModelError`]: the kind, the architecture and key texts;
/// explanation texts are not part of the model.
pub enum ModelFault {
    MissingArchitecture,
    UnsupportedArchitecture { architecture: Seq<char> },
    MissingKey { key: Seq<char> },
    InvalidType { key: Seq<char> },
    InvalidConfig,
}

impl View for ModelError {
    type V = ModelFault;

    open spec fn view(&self) -> ModelFault {
        match self {
            ModelError::MissingArchitecture => ModelFault::MissingArchitecture,
            ModelError::UnsupportedArchitecture { architecture } => ModelFault::UnsupportedArchitecture {
                architecture: architecture@,
            },
            ModelError::MissingKey { key } => ModelFault::MissingKey { key: key@ },
            ModelError::InvalidType { key, .. } => ModelFault::InvalidType { key: key@ },
            ModelError::InvalidConfig { .. } => ModelFault::InvalidConfig,
        }
    }
}

impl ModelError {
    /// Convenience builder for [`ModelError::InvalidConfig`].
    pub fn invalid(reason: &str) -> (res: Self)
        ensures
            res matches ModelError::InvalidConfig { reason: r } && r@ == reason@,
    {
        ModelError::InvalidConfig { reason: reason.to_owned() }
    }
}

} // verus!
