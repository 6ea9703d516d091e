//! Weight loading: resolve tensor byte spans inside a GGUF file and decode
//! dense payloads.

pub mod error;
pub mod quant;
pub mod set;
pub mod storage;
pub mod tensor;

pub use error::{WeightsError, WeightsFault};
pub use quant::QuantMeta;
pub use set::WeightSet;
pub use storage::WeightStorage;
pub use tensor::{FloatWords, WeightTensor};
