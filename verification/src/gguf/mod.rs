//! GGUF container parser — header, metadata, and tensor directory.
//!
//! GGUF packs weights, typed metadata and tensor layout into one
//! `mmap`-friendly binary:
//!
//! ```text
//! ┌──────────────┬─────────────────┬──────────────┬────────────┐
//! │ magic/ver/n  │ metadata KV×N   │ tensor info×M│  padding   │ tensor_data …
//! └──────────────┴─────────────────┴──────────────┴────────────┘
//!                                                  ▲ data_offset
//! ```
//!
//! Everything before `data_offset` is decoded here; the weight blob is not.

pub mod error;
pub mod file;
pub mod limits;
pub mod reader;
pub mod tensor_info;
pub mod types;
pub mod value;

pub use error::{GgufError, GgufFault};
pub use file::{GgufFile, GgufHeader, GgufModel};
pub use tensor_info::TensorInfo;
pub use types::{
    align_offset, GgmlType, MetadataValueType, ALIGNMENT_KEY, ARCHITECTURE_KEY, DEFAULT_ALIGNMENT,
    GGUF_MAGIC, GGUF_VERSION_V2, GGUF_VERSION_V3, NAME_KEY, SUPPORTED_VERSIONS,
};
pub use value::{MetaValue, MetadataArray, MetadataEntry, MetadataValue};
