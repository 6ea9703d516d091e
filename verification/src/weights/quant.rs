//! Quantization block metadata for `ggml_type` values.
//!
//! GGUF stores most weights as blocks: a fixed number of elements share a
//! scale (and optional min). Knowing `(block_size, type_size)` lets the loader
//! compute byte spans and validate the file before any dequant kernel runs.
//! Sizes match ggml (`sizeof(block_*)` and the `QK*` constants).

use vstd::prelude::*;

use super::error::{WeightsError, WeightsFault};
use crate::gguf::GgmlType;

verus! {

/// Layout description for one `ggml_type`.
#[derive(Debug, Clone, Copy, PartialEq, Eq, Structural)]
pub struct QuantMeta {
    /// Logical type this metadata describes.
    pub ggml_type: GgmlType,
    /// Elements covered by one on-disk block (`1` for dense floats/ints).
    pub block_size: u64,
    /// Bytes occupied by one on-disk block.
    pub type_size: u64,
    /// `true` when the type packs multiple values per block with a scale.
    pub is_quantized: bool,
}

/// `(block_size, type_size, is_quantized)` of the types with a known layout.
pub open spec fn quant_layout(t: GgmlType) -> Option<(u64, u64, bool)> {
    match t {
        GgmlType::F32 | GgmlType::I32 => Some((1, 4, false)),
        GgmlType::F16 | GgmlType::Bf16 | GgmlType::I16 => Some((1, 2, false)),
        GgmlType::F64 | GgmlType::I64 => Some((1, 8, false)),
        GgmlType::I8 => Some((1, 1, false)),
        GgmlType::Q4_0 => Some((32, 18, true)),
        GgmlType::Q4_1 => Some((32, 20, true)),
        GgmlType::Q5_0 => Some((32, 22, true)),
        GgmlType::Q5_1 => Some((32, 24, true)),
        GgmlType::Q8_0 => Some((32, 34, true)),
        GgmlType::Q8_1 => Some((32, 36, true)),
        GgmlType::Q2K => Some((256, 84, true)),
        GgmlType::Q3K => Some((256, 110, true)),
        GgmlType::Q4K => Some((256, 144, true)),
        GgmlType::Q5K => Some((256, 176, true)),
        GgmlType::Q6K => Some((256, 210, true)),
        GgmlType::Q8K => Some((256, 292, true)),
        _ => None,
    }
}

/// Bytes of one IEEE half (`ggml_half`), the scale type of most blocks.
pub open spec fn half_bytes() -> int {
    2
}

/// Elements per ggml block: `QK4_0 = QK4_1 = QK5_0 = QK5_1 = QK8_0 = QK8_1 = 32`
/// for the legacy quants, `QK_K = 256` for the k-quants, one for dense types,
/// and zero for types without a layout here.
pub open spec fn ggml_block_elements(t: GgmlType) -> int {
    match t {
        GgmlType::F32 | GgmlType::I32 | GgmlType::F16 | GgmlType::Bf16 | GgmlType::I16
        | GgmlType::F64 | GgmlType::I64 | GgmlType::I8 => 1,
        GgmlType::Q4_0 | GgmlType::Q4_1 | GgmlType::Q5_0 | GgmlType::Q5_1 | GgmlType::Q8_0
        | GgmlType::Q8_1 => 32,
        GgmlType::Q2K | GgmlType::Q3K | GgmlType::Q4K | GgmlType::Q5K | GgmlType::Q6K
        | GgmlType::Q8K => 256,
        _ => 0,
    }
}

/// Bytes of one on-disk block, as the sum of the sizes of the fields of
/// ggml's `block_*` struct, each written in terms of the `n` elements the
/// block covers (`n / 2` bytes hold `n` 4-bit values, and so on).
pub open spec fn ggml_block_bytes(t: GgmlType) -> int {
    let n = ggml_block_elements(t);
    match t {
        // one value of the element type
        GgmlType::F32 | GgmlType::I32 => 4,
        GgmlType::F16 | GgmlType::Bf16 | GgmlType::I16 => 2,
        GgmlType::F64 | GgmlType::I64 => 8,
        GgmlType::I8 => 1,
        // d, qs[n / 2]
        GgmlType::Q4_0 => half_bytes() + n / 2,
        // d, m, qs[n / 2]
        GgmlType::Q4_1 => 2 * half_bytes() + n / 2,
        // d, qh[n / 8], qs[n / 2]
        GgmlType::Q5_0 => half_bytes() + n / 8 + n / 2,
        // d, m, qh[n / 8], qs[n / 2]
        GgmlType::Q5_1 => 2 * half_bytes() + n / 8 + n / 2,
        // d, qs[n] (int8)
        GgmlType::Q8_0 => half_bytes() + n,
        // d, s, qs[n] (int8)
        GgmlType::Q8_1 => 2 * half_bytes() + n,
        // scales[n / 16], qs[n / 4], d, dmin
        GgmlType::Q2K => n / 16 + n / 4 + 2 * half_bytes(),
        // hmask[n / 8], qs[n / 4], scales[12], d
        GgmlType::Q3K => n / 8 + n / 4 + 12 + half_bytes(),
        // d, dmin, scales[12], qs[n / 2]
        GgmlType::Q4K => 2 * half_bytes() + 12 + n / 2,
        // d, dmin, scales[12], qh[n / 8], qs[n / 2]
        GgmlType::Q5K => 2 * half_bytes() + 12 + n / 8 + n / 2,
        // ql[n / 2], qh[n / 4], scales[n / 16], d
        GgmlType::Q6K => n / 2 + n / 4 + n / 16 + half_bytes(),
        // d (f32), qs[n] (int8), bsums[n / 16] (int16)
        GgmlType::Q8K => 4 + n + 2 * (n / 16),
        _ => 0,
    }
}

/// The layout of every supported type is ggml's on-disk block: a block
/// covers ggml's element count and its byte size is the sum of its fields;
/// exactly the types with a block here have a layout, and only blocks of
/// more than one element are quantized.
pub proof fn lemma_quant_layout_is_ggml_block(t: GgmlType)
    ensures
        quant_layout(t) is None <==> ggml_block_elements(t) == 0,
        quant_layout(t) matches Some((b, s, q)) ==> {
            &&& b == ggml_block_elements(t)
            &&& s == ggml_block_bytes(t)
            &&& q == (b > 1)
        },
{
}

/// Byte length of `numel` elements laid out in blocks of `block_size`
/// elements of `type_size` bytes each.
pub open spec fn payload_bytes(numel: u64, block_size: u64, type_size: u64) -> int {
    (numel / block_size) * type_size
}

impl QuantMeta {
    /// Look up layout metadata for a `ggml_type`.
    ///
    /// Fails with [`WeightsError::UnsupportedType`] (name `<meta>`) exactly
    /// for the types without a known layout.
    pub fn for_type(ggml_type: GgmlType) -> (res: Result<Self, WeightsError>)
        ensures
            match quant_layout(ggml_type) {
                Some((b, t, q)) => res == Ok::<QuantMeta, WeightsError>(
                    QuantMeta { ggml_type, block_size: b, type_size: t, is_quantized: q },
                ),
                None => res matches Err(e) && e@ == (WeightsFault::UnsupportedType {
                    name: "<meta>"@,
                    ggml_type,
                }),
            },
    {
        let (block_size, type_size, is_quantized): (u64, u64, bool) = match ggml_type {
            GgmlType::F32 | GgmlType::I32 => (1, 4, false),
            GgmlType::F16 | GgmlType::Bf16 | GgmlType::I16 => (1, 2, false),
            GgmlType::F64 | GgmlType::I64 => (1, 8, false),
            GgmlType::I8 => (1, 1, false),
            GgmlType::Q4_0 => (32, 18, true),
            GgmlType::Q4_1 => (32, 20, true),
            GgmlType::Q5_0 => (32, 22, true),
            GgmlType::Q5_1 => (32, 24, true),
            GgmlType::Q8_0 => (32, 34, true),
            GgmlType::Q8_1 => (32, 36, true),
            GgmlType::Q2K => (256, 84, true),
            GgmlType::Q3K => (256, 110, true),
            GgmlType::Q4K => (256, 144, true),
            GgmlType::Q5K => (256, 176, true),
            GgmlType::Q6K => (256, 210, true),
            GgmlType::Q8K => (256, 292, true),
            other => {
                return Err(
                    WeightsError::UnsupportedType { name: "<meta>".to_owned(), ggml_type: other },
                );
            },
        };
        Ok(QuantMeta { ggml_type, block_size, type_size, is_quantized })
    }

    /// Byte length of a tensor with `numel` elements of this type.
    ///
    /// Fails with [`WeightsError::UnsupportedType`] for a zero block size,
    /// [`WeightsError::MisalignedElements`] when `numel` is not a multiple of
    /// the block size, and [`WeightsError::InvalidElementCount`] when the byte
    /// length overflows `u64`.
    pub fn nbytes(&self, numel: u64, tensor_name: &str) -> (res: Result<u64, WeightsError>)
        ensures
            self.block_size == 0 ==> (res matches Err(e) && e@ == (WeightsFault::UnsupportedType {
                name: tensor_name@,
                ggml_type: self.ggml_type,
            })),
            self.block_size != 0 && numel % self.block_size != 0 ==> (res matches Err(e) && e@
                == (WeightsFault::MisalignedElements {
                name: tensor_name@,
                numel,
                block_size: self.block_size,
                ggml_type: self.ggml_type,
            })),
            self.block_size != 0 && numel % self.block_size == 0 ==> {
                let n = payload_bytes(numel, self.block_size, self.type_size);
                &&& n <= u64::MAX ==> res == Ok::<u64, WeightsError>(n as u64)
                &&& n > u64::MAX ==> (res matches Err(e) && e@ == (WeightsFault::InvalidElementCount {
                    name: tensor_name@,
                }))
            },
    {
        if self.block_size == 0 {
            return Err(
                WeightsError::UnsupportedType {
                    name: tensor_name.to_owned(),
                    ggml_type: self.ggml_type,
                },
            );
        }
        if numel % self.block_size != 0 {
            return Err(
                WeightsError::MisalignedElements {
                    name: tensor_name.to_owned(),
                    numel,
                    block_size: self.block_size,
                    ggml_type: self.ggml_type,
                },
            );
        }
        let blocks = numel / self.block_size;
        match blocks.checked_mul(self.type_size) {
            Some(n) => Ok(n),
            None => Err(WeightsError::InvalidElementCount { name: tensor_name.to_owned() }),
        }
    }
}

} // verus!
