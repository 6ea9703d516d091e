//! Typed error surface for the library API.
//!
//! Subsystem errors nest behind dedicated variants so callers can match
//! broadly or down to the detailed cause.

use vstd::prelude::*;
use vstd::std_specs::convert::FromSpecImpl;
use vstd::string::StringExecFns;

use crate::gguf::GgufError;
use crate::layers::LayersError;
use crate::model::ModelError;
use crate::tensor::TensorError;
use crate::tokenizer::TokenizerError;
use crate::weights::WeightsError;

verus! {

#[verifier::external_type_specification]
#[verifier::external_body]
pub struct ExIoError(std::io::Error);

/// Convenient alias for fallible library operations.
pub type Result<T> = core::result::Result<T, PhalanxError>;

/// Top-level error type returned by library APIs.
#[derive(Debug)]
pub enum PhalanxError {
    /// Filesystem or other I/O failure (model paths, mmap, etc.).
    Io(std::io::Error),
    /// Invalid runtime or model configuration supplied by the caller.
    Config(String),
    /// Shape / layout / kernel failure from the tensor subsystem.
    Tensor(TensorError),
    /// GGUF container parse / validation failure.
    Gguf(GgufError),
    /// Vocabulary / encode / decode failure.
    Tokenizer(TokenizerError),
    /// Weight mmap / bounds / materialization failure.
    Weights(WeightsError),
    /// Model architecture / hyperparameter failure.
    Model(ModelError),
    /// Layer loading / execution failure.
    Layers(LayersError),
    /// Unexpected internal invariant violation.
    Internal(String),
}

impl PhalanxError {
    /// Build a [`PhalanxError::Config`] from a message.
    pub fn config(message: &str) -> (res: Self)
        ensures
            res matches PhalanxError::Config(m) && m@ == message@,
    {
        PhalanxError::Config(message.to_owned())
    }

    /// Build a [`PhalanxError::Internal`] from a message.
    pub fn internal(message: &str) -> (res: Self)
        ensures
            res matches PhalanxError::Internal(m) && m@ == message@,
    {
        PhalanxError::Internal(message.to_owned())
    }
}

/// Display text of an I/O error (`io::Error::to_string`).
///
/// Trusted only to return: the text may include an operating-system
/// message and is not stated.
#[verifier::external_body]
fn io_error_text(err: &std::io::Error) -> String {
    err.to_string()
}

impl PhalanxError {
    /// The error's display text: `I/O error: …`, `configuration error: …`,
    /// `internal error: …`, or the nested subsystem error's own text.
    pub fn to_string(&self) -> (res: String)
        ensures
            self matches PhalanxError::Config(m) ==> res@ == "configuration error: "@ + m@,
            self matches PhalanxError::Internal(m) ==> res@ == "internal error: "@ + m@,
            self matches PhalanxError::Tensor(e) ==> res@ == crate::messages::tensor_error_text(*e),
            self matches PhalanxError::Gguf(e) ==> res@ == crate::messages::gguf_error_text(*e),
            self matches PhalanxError::Tokenizer(e) ==> res@ == crate::messages::tokenizer_error_text(*e),
            self matches PhalanxError::Weights(e) ==> res@ == crate::messages::weights_error_text(*e),
            self matches PhalanxError::Model(e) ==> res@ == crate::messages::model_error_text(*e),
            self matches PhalanxError::Layers(e) ==> res@ == crate::messages::layers_error_text(*e),
            self is Io ==> res@.len() >= 11 && res@.subrange(0, 11) == "I/O error: "@,
    {
        match self {
            PhalanxError::Io(e) => {
                let mut s = "I/O error: ".to_owned();
                let text = io_error_text(e);
                s.append(text.as_str());
                proof {
                    reveal_strlit("I/O error: ");
                    assert(s@.subrange(0, 11) =~= "I/O error: "@);
                }
                s
            },
            PhalanxError::Config(m) => {
                let mut s = "configuration error: ".to_owned();
                s.append(m.as_str());
                s
            },
            PhalanxError::Tensor(e) => e.message(),
            PhalanxError::Gguf(e) => e.message(),
            PhalanxError::Tokenizer(e) => e.message(),
            PhalanxError::Weights(e) => e.message(),
            PhalanxError::Model(e) => e.message(),
            PhalanxError::Layers(e) => e.message(),
            PhalanxError::Internal(m) => {
                let mut s = "internal error: ".to_owned();
                s.append(m.as_str());
                s
            },
        }
    }
}

impl From<std::io::Error> for PhalanxError {
    /// Wraps an I/O failure.
    fn from(e: std::io::Error) -> (res: Self)
        ensures
            res == PhalanxError::Io(e),
    {
        PhalanxError::Io(e)
    }
}

impl FromSpecImpl<std::io::Error> for PhalanxError {
    open spec fn obeys_from_spec() -> bool {
        true
    }

    open spec fn from_spec(v: std::io::Error) -> Self {
        PhalanxError::Io(v)
    }
}

impl From<TensorError> for PhalanxError {
    /// Nests a tensor error.
    fn from(e: TensorError) -> (res: Self)
        ensures
            res == PhalanxError::Tensor(e),
    {
        PhalanxError::Tensor(e)
    }
}

impl FromSpecImpl<TensorError> for PhalanxError {
    open spec fn obeys_from_spec() -> bool {
        true
    }

    open spec fn from_spec(v: TensorError) -> Self {
        PhalanxError::Tensor(v)
    }
}

impl From<GgufError> for PhalanxError {
    /// Nests a GGUF error.
    fn from(e: GgufError) -> (res: Self)
        ensures
            res == PhalanxError::Gguf(e),
    {
        PhalanxError::Gguf(e)
    }
}

impl FromSpecImpl<GgufError> for PhalanxError {
    open spec fn obeys_from_spec() -> bool {
        true
    }

    open spec fn from_spec(v: GgufError) -> Self {
        PhalanxError::Gguf(v)
    }
}

impl From<TokenizerError> for PhalanxError {
    /// Nests a tokenizer error.
    fn from(e: TokenizerError) -> (res: Self)
        ensures
            res == PhalanxError::Tokenizer(e),
    {
        PhalanxError::Tokenizer(e)
    }
}

impl FromSpecImpl<TokenizerError> for PhalanxError {
    open spec fn obeys_from_spec() -> bool {
        true
    }

    open spec fn from_spec(v: TokenizerError) -> Self {
        PhalanxError::Tokenizer(v)
    }
}

impl From<WeightsError> for PhalanxError {
    /// Nests a weights error.
    fn from(e: WeightsError) -> (res: Self)
        ensures
            res == PhalanxError::Weights(e),
    {
        PhalanxError::Weights(e)
    }
}

impl FromSpecImpl<WeightsError> for PhalanxError {
    open spec fn obeys_from_spec() -> bool {
        true
    }

    open spec fn from_spec(v: WeightsError) -> Self {
        PhalanxError::Weights(v)
    }
}

impl From<ModelError> for PhalanxError {
    /// Nests a model error.
    fn from(e: ModelError) -> (res: Self)
        ensures
            res == PhalanxError::Model(e),
    {
        PhalanxError::Model(e)
    }
}

impl FromSpecImpl<ModelError> for PhalanxError {
    open spec fn obeys_from_spec() -> bool {
        true
    }

    open spec fn from_spec(v: ModelError) -> Self {
        PhalanxError::Model(v)
    }
}

impl From<LayersError> for PhalanxError {
    /// Nests a layers error.
    fn from(e: LayersError) -> (res: Self)
        ensures
            res == PhalanxError::Layers(e),
    {
        PhalanxError::Layers(e)
    }
}

impl FromSpecImpl<LayersError> for PhalanxError {
    open spec fn obeys_from_spec() -> bool {
        true
    }

    open spec fn from_spec(v: LayersError) -> Self {
        PhalanxError::Layers(v)
    }
}

} // verus!
