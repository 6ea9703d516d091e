//! A single weight tensor view into mapped (or owned) GGUF bytes.

use vstd::prelude::*;

use super::error::{WeightsError, WeightsFault};
use super::quant::QuantMeta;
use crate::errors::PhalanxError;
use crate::gguf::reader::{le_u16, le_u32};
use crate::gguf::{GgmlType, TensorInfo};
use crate::tensor::shape::{product, product_fits};
use crate::tensor::{Shape, Tensor, TensorFault};

verus! {

/// Borrowed view of one tensor's on-disk payload.
#[derive(Debug, Clone, Copy)]
pub struct WeightTensor<'a> {
    /// Directory record from the GGUF header.
    pub info: &'a TensorInfo,
    /// Quantization / dense layout metadata.
    pub quant: QuantMeta,
    /// Absolute file offset of the first payload byte.
    pub absolute_offset: u64,
    /// Raw payload bytes (block-packed for quantized types).
    pub data: &'a [u8],
}

/// Dense float payload as raw words, in row-major order: each `F32` word is
/// the bit pattern of an `f32`, each `F16` word that of an IEEE half.
pub enum FloatWords {
    /// Little-endian 32-bit words of an `F32` tensor.
    F32(Tensor<u32>),
    /// Little-endian 16-bit words of an `F16` tensor.
    F16(Tensor<u16>),
}

/// The `i`-th little-endian 32-bit word of `data`.
pub open spec fn word32(data: Seq<u8>, i: int) -> u32 {
    le_u32(data.subrange(4 * i, 4 * i + 4))
}

/// The `i`-th little-endian 16-bit word of `data`.
pub open spec fn word16(data: Seq<u8>, i: int) -> u16 {
    le_u16(data.subrange(2 * i, 2 * i + 2))
}

/// Dimensions of a tensor record as `usize`, when each fits.
pub open spec fn dims_as_usize(dims: Seq<u64>) -> Option<Seq<usize>> {
    if forall|k: int| 0 <= k < dims.len() ==> #[trigger] dims[k] <= usize::MAX {
        Some(Seq::new(dims.len(), |k: int| dims[k] as usize))
    } else {
        None
    }
}

impl<'a> WeightTensor<'a> {
    /// Tensor name shortcut.
    pub fn name(&self) -> (res: &str)
        ensures
            res@ == self.info.name@,
    {
        self.info.name.as_str()
    }

    /// Element type shortcut.
    pub fn ggml_type(&self) -> (res: GgmlType)
        ensures
            res == self.info.ggml_type,
    {
        self.info.ggml_type
    }

    fn float_payload_error(&self) -> (e: PhalanxError)
        ensures
            e matches PhalanxError::Weights(w) && w@ == (WeightsFault::InvalidFloatPayload {
                name: self.info.name@,
                got: self.data@.len() as usize,
            }),
    {
        PhalanxError::Weights(
            WeightsError::InvalidFloatPayload { name: self.info.name.clone(), got: self.data.len() },
        )
    }

    fn element_count_error(&self) -> (e: PhalanxError)
        ensures
            e matches PhalanxError::Weights(w) && w@ == (WeightsFault::InvalidElementCount {
                name: self.info.name@,
            }),
    {
        PhalanxError::Weights(WeightsError::InvalidElementCount { name: self.info.name.clone() })
    }

    /// Decode a dense float payload into raw words with the tensor's shape.
    ///
    /// Fails with [`WeightsError::InvalidElementCount`] when a dimension or
    /// the element count does not fit in `usize` (or the byte count
    /// overflows), with [`TensorError::InvalidShape`] for a record without
    /// dimensions, with [`WeightsError::InvalidFloatPayload`] when the
    /// payload is not exactly one word per element, and with
    /// [`WeightsError::DequantNotImplemented`] for any type but `F32`/`F16`.
    ///
    /// [`TensorError::InvalidShape`]: crate::tensor::TensorError::InvalidShape
    pub fn float_words(&self) -> (res: Result<FloatWords, PhalanxError>)
        ensures
            res matches Ok(FloatWords::F32(t)) ==> {
                &&& self.info.ggml_type == GgmlType::F32
                &&& t.wf()
                &&& dims_as_usize(self.info.dimensions@) == Some(t.dims())
                &&& self.data@.len() == 4 * t.data().len()
                &&& forall|i: int| 0 <= i < t.data().len() ==> #[trigger] t.data()[i] == word32(self.data@, i)
            },
            res matches Ok(FloatWords::F16(t)) ==> {
                &&& self.info.ggml_type == GgmlType::F16
                &&& t.wf()
                &&& dims_as_usize(self.info.dimensions@) == Some(t.dims())
                &&& self.data@.len() == 2 * t.data().len()
                &&& forall|i: int| 0 <= i < t.data().len() ==> #[trigger] t.data()[i] == word16(self.data@, i)
            },
            dims_as_usize(self.info.dimensions@) is None ==> (res matches Err(PhalanxError::Weights(w))
                && w@ == (WeightsFault::InvalidElementCount { name: self.info.name@ })),
            dims_as_usize(self.info.dimensions@) matches Some(d) ==> {
                &&& d.len() == 0 ==> (res matches Err(PhalanxError::Tensor(e)) && e@
                    == TensorFault::InvalidShape)
                &&& d.len() > 0 && self.info.ggml_type != GgmlType::F32 && self.info.ggml_type
                    != GgmlType::F16 ==> (res matches Err(PhalanxError::Weights(w)) && w@
                    == (WeightsFault::DequantNotImplemented {
                    name: self.info.name@,
                    ggml_type: self.info.ggml_type,
                }))
                &&& d.len() > 0 && self.info.ggml_type == GgmlType::F32 && product_fits(d)
                    && self.data@.len() == 4 * product(d) ==> res is Ok
                &&& d.len() > 0 && self.info.ggml_type == GgmlType::F16 && product_fits(d)
                    && self.data@.len() == 2 * product(d) ==> res is Ok
            },
    {
        let mut dims: Vec<usize> = Vec::new();
        let mut k: usize = 0;
        while k < self.info.dimensions.len()
            invariant
                k <= self.info.dimensions@.len(),
                dims@.len() == k,
                forall|j: int| 0 <= j < k ==> #[trigger] self.info.dimensions@[j] <= usize::MAX,
                forall|j: int| 0 <= j < k ==> #[trigger] dims@[j] == self.info.dimensions@[j] as usize,
            decreases self.info.dimensions@.len() - k,
        {
            let d = self.info.dimensions[k];
            if d > usize::MAX as u64 {
                return Err(self.element_count_error());
            }
            dims.push(d as usize);
            k = k + 1;
        }
        assert(dims_as_usize(self.info.dimensions@) == Some(dims@)) by {
            assert(dims@ =~= Seq::new(self.info.dimensions@.len(), |j: int| self.info.dimensions@[j] as usize));
        }
        let shape = match Shape::new(dims) {
            Ok(s) => s,
            Err(e) => {
                return Err(e);
            },
        };
        match self.info.ggml_type {
            GgmlType::F32 => match self.decode_f32(shape) {
                Ok(t) => Ok(FloatWords::F32(t)),
                Err(e) => Err(e),
            },
            GgmlType::F16 => match self.decode_f16(shape) {
                Ok(t) => Ok(FloatWords::F16(t)),
                Err(e) => Err(e),
            },
            other => Err(
                PhalanxError::Weights(
                    WeightsError::DequantNotImplemented {
                        name: self.info.name.clone(),
                        ggml_type: other,
                    },
                ),
            ),
        }
    }

    fn decode_f32(&self, shape: Shape) -> (res: Result<Tensor<u32>, PhalanxError>)
        requires
            shape.wf(),
        ensures
            res matches Ok(t) ==> t.wf() && t.dims() == shape.dims() && self.data@.len() == 4
                * t.data().len() && forall|i: int| 0 <= i < t.data().len() ==> #[trigger] t.data()[i]
                == word32(self.data@, i),
            product_fits(shape.dims()) && self.data@.len() == 4 * product(shape.dims()) ==> res is Ok,
            res is Err ==> (res matches Err(PhalanxError::Weights(w)) && (w@
                == (WeightsFault::InvalidFloatPayload {
                name: self.info.name@,
                got: self.data@.len() as usize,
            }) || w@ == (WeightsFault::InvalidElementCount { name: self.info.name@ }))),
    {
        if self.data.len() % 4 != 0 {
            return Err(self.float_payload_error());
        }
        let numel = match shape.checked_numel() {
            Some(n) => n,
            None => {
                return Err(self.element_count_error());
            },
        };
        let expected = match numel.checked_mul(4) {
            Some(e) => e,
            None => {
                return Err(self.element_count_error());
            },
        };
        if self.data.len() != expected {
            return Err(self.float_payload_error());
        }
        let mut values: Vec<u32> = Vec::new();
        let mut i: usize = 0;
        while i < numel
            invariant
                i <= numel,
                4 * numel <= usize::MAX,
                self.data@.len() == 4 * numel,
                values@.len() == i,
                forall|j: int| 0 <= j < i ==> #[trigger] values@[j] == word32(self.data@, j),
            decreases numel - i,
        {
            let b = 4 * i;
            let w = (self.data[b] as u32) + 0x100 * (self.data[b + 1] as u32) + 0x1_0000 * (
            self.data[b + 2] as u32) + 0x100_0000 * (self.data[b + 3] as u32);
            proof {
                let sub = self.data@.subrange(4 * i as int, 4 * i as int + 4);
                assert(sub[0] == self.data@[b as int]);
                assert(sub[1] == self.data@[b + 1]);
                assert(sub[2] == self.data@[b + 2]);
                assert(sub[3] == self.data@[b + 3]);
            }
            values.push(w);
            i = i + 1;
        }
        Tensor::from_vec(values, shape)
    }

    fn decode_f16(&self, shape: Shape) -> (res: Result<Tensor<u16>, PhalanxError>)
        requires
            shape.wf(),
        ensures
            res matches Ok(t) ==> t.wf() && t.dims() == shape.dims() && self.data@.len() == 2
                * t.data().len() && forall|i: int| 0 <= i < t.data().len() ==> #[trigger] t.data()[i]
                == word16(self.data@, i),
            product_fits(shape.dims()) && self.data@.len() == 2 * product(shape.dims()) ==> res is Ok,
            res is Err ==> (res matches Err(PhalanxError::Weights(w)) && (w@
                == (WeightsFault::InvalidFloatPayload {
                name: self.info.name@,
                got: self.data@.len() as usize,
            }) || w@ == (WeightsFault::InvalidElementCount { name: self.info.name@ }))),
    {
        if self.data.len() % 2 != 0 {
            return Err(self.float_payload_error());
        }
        let numel = match shape.checked_numel() {
            Some(n) => n,
            None => {
                return Err(self.element_count_error());
            },
        };
        let expected = match numel.checked_mul(2) {
            Some(e) => e,
            None => {
                return Err(self.element_count_error());
            },
        };
        if self.data.len() != expected {
            return Err(self.float_payload_error());
        }
        let mut values: Vec<u16> = Vec::new();
        let mut i: usize = 0;
        while i < numel
            invariant
                i <= numel,
                2 * numel <= usize::MAX,
                self.data@.len() == 2 * numel,
                values@.len() == i,
                forall|j: int| 0 <= j < i ==> #[trigger] values@[j] == word16(self.data@, j),
            decreases numel - i,
        {
            let b = 2 * i;
            let w = (self.data[b] as u16) + 0x100 * (self.data[b + 1] as u16);
            proof {
                let sub = self.data@.subrange(2 * i as int, 2 * i as int + 2);
                assert(sub[0] == self.data@[b as int]);
                assert(sub[1] == self.data@[b + 1]);
            }
            values.push(w);
            i = i + 1;
        }
        Tensor::from_vec(values, shape)
    }
}

} // verus!
