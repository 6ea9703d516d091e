//! Safety caps so a malicious header cannot force huge allocations before the
//! rest of the container has been validated.

use vstd::prelude::*;

verus! {

/// Maximum metadata key length (spec: ≤ 65535).
pub const MAX_KEY_LEN: u64 = 65_535;

/// Maximum tensor name length (spec: ≤ 64).
pub const MAX_TENSOR_NAME_LEN: u64 = 64;

/// Soft cap for other UTF-8 strings (tokenizer pieces can be large).
pub const MAX_STRING_LEN: u64 = 67_108_864;

/// Maximum dimensions on a single tensor info record.
pub const MAX_DIMENSIONS: u32 = 8;

/// Maximum metadata KV count (far above real models).
pub const MAX_METADATA_COUNT: u64 = 1_000_000;

/// Maximum tensor count (far above real models).
pub const MAX_TENSOR_COUNT: u64 = 1_000_000;

/// Maximum array element count (vocab / merges can be huge).
pub const MAX_ARRAY_LEN: u64 = 100_000_000;

/// Nesting depth for metadata arrays.
pub const MAX_ARRAY_DEPTH: u32 = 8;

} // verus!
