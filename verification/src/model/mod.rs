//! Model architecture and transformer hyperparameters.

pub mod architecture;
pub mod config;
pub mod error;
pub mod keys;

pub use architecture::Architecture;
pub use config::{AttentionConfig, ModelConfig, RopeConfig, RopeScaling, DEFAULT_ROPE_FREQ_BASE};
pub use error::{ModelError, ModelFault};
pub use keys::keyed;
