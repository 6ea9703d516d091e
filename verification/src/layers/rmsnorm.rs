//! Root Mean Square Layer Normalization (`RMSNorm`): γ and ε validation and
//! the activation shapes the kernel accepts.
//!
//! `ε` is held as an `f32` bit pattern; it must be finite and positive.

use vstd::prelude::*;
use vstd::string::StringExecFns;

use super::error::{is_layers_fault, layers_err, LayersError, LayersFault};
use super::matrix::{squeeze_ones, squeeze_trailing_ones};
use super::names::OUTPUT_NORM_WEIGHT;
use crate::errors::PhalanxError;
use crate::floatbits::{f32_positive_finite, F32_INFINITY_BITS};
use crate::model::ModelConfig;
use crate::tensor::Tensor;
use super::attention::last_dim_reason;
use crate::messages::{list_display, usize_list_display};
use crate::text::{decimal_string, str_eq};
use crate::weights::{WeightSet, WeightTensor, WeightsError};

verus! {

/// Llama-style `RMSNorm`: γ ⊙ x / RMS(x).
#[derive(Debug)]
pub struct RmsNorm<T> {
    weight: Tensor<T>,
    eps: u32,
    hidden_size: usize,
}

/// Length of a γ record checked against the configuration.
pub open spec fn norm_dims(dims: Seq<u64>, embedding_length: u32) -> Result<usize, LayersFault> {
    let d = squeeze_ones(dims);
    if d.len() != 1 || d[0] > usize::MAX {
        Err(LayersFault::InvalidWeightShape { name: OUTPUT_NORM_WEIGHT@ })
    } else if d[0] != embedding_length {
        Err(LayersFault::ConfigMismatch { name: OUTPUT_NORM_WEIGHT@ })
    } else {
        Ok(d[0] as usize)
    }
}

/// Look up the γ tensor `name` and check it against the configuration: the
/// loading half of building a norm from a weight set, before the payload is
/// materialised.
///
/// A missing `output_norm.weight` fails with [`LayersError::MissingWeight`];
/// a missing per-block γ with [`LayersError::InvalidWeightShape`]; other
/// lookup failures pass through; then [`norm_dims`] decides. On success
/// returns the payload view and the hidden size.
pub fn resolve_norm_weight<'a>(weights: &'a WeightSet, name: &str, config: &ModelConfig) -> (res: Result<(WeightTensor<'a>, usize), PhalanxError>)
    ensures
        crate::gguf::file::tensor_index(weights.directory().tensors@, name@) is None ==> (if name@
            == OUTPUT_NORM_WEIGHT@ {
            is_layers_fault(res, LayersFault::MissingWeight { name: OUTPUT_NORM_WEIGHT@ })
        } else {
            is_layers_fault(res, LayersFault::InvalidWeightShape { name: OUTPUT_NORM_WEIGHT@ })
        }),
        res matches Ok((v, h)) ==> v.info.name@ == name@ && norm_dims(v.info.dimensions@, config.embedding_length) == Ok::<usize, LayersFault>(h),
        weights.owned_bytes() is Some ==> match crate::gguf::file::tensor_index(
            weights.directory().tensors@,
            name@,
        ) {
            Some(i) => match norm_dims(weights.directory().tensors@[i].dimensions@, config.embedding_length) {
                Ok(h) => res matches Ok((_, hh)) && hh == h,
                Err(f) => is_layers_fault(res, f),
            },
            None => true,
        },
{
    let view = match weights.tensor(name) {
        Ok(v) => v,
        Err(PhalanxError::Weights(WeightsError::TensorNotFound { .. })) => {
            if str_eq(name, OUTPUT_NORM_WEIGHT) {
                return Err(layers_err(LayersError::MissingWeight { name: OUTPUT_NORM_WEIGHT }));
            }
            let mut reason = "tensor '".to_owned();
            reason.append(name);
            reason.append("' not found in weight set");
            return Err(layers_err(LayersError::InvalidWeightShape { name: OUTPUT_NORM_WEIGHT, reason }));
        },
        Err(other) => {
            return Err(other);
        },
    };
    proof {
        crate::search::lemma_first_index_spec(
            weights.directory().tensors@,
            |t: crate::gguf::TensorInfo| t.name@ == name@,
        );
    }
    let dims = squeeze_trailing_ones(view.info.dimensions.as_slice());
    if dims.len() != 1 {
        let mut reason = "expected rank-1 [hidden] for '".to_owned();
        reason.append(name);
        reason.append("', got ");
        reason.append(list_display(view.info.dimensions.as_slice()).as_str());
        return Err(layers_err(LayersError::InvalidWeightShape { name: OUTPUT_NORM_WEIGHT, reason }));
    }
    if dims[0] > usize::MAX as u64 {
        let mut reason = name.to_owned();
        reason.append(": dimension ");
        reason.append(decimal_string(dims[0]).as_str());
        reason.append(" does not fit usize");
        return Err(layers_err(LayersError::InvalidWeightShape { name: OUTPUT_NORM_WEIGHT, reason }));
    }
    if dims[0] != config.embedding_length as u64 {
        let mut reason = "\u{3b3} length ".to_owned();
        reason.append(decimal_string(dims[0]).as_str());
        reason.append(" != embedding_length ");
        reason.append(decimal_string(config.embedding_length as u64).as_str());
        return Err(layers_err(LayersError::ConfigMismatch { name: OUTPUT_NORM_WEIGHT, reason }));
    }
    Ok((view, dims[0] as usize))
}

impl<T> RmsNorm<T> {
    /// γ, ε (bits) and the hidden size, as validated.
    pub closed spec fn parts(&self) -> (Tensor<T>, u32, usize) {
        (self.weight, self.eps, self.hidden_size)
    }

    /// Build from a `[hidden]` γ and ε (an `f32` bit pattern).
    ///
    /// Fails with [`LayersError::InvalidWeightShape`] when γ is not rank 1
    /// or is empty, and with [`LayersError::ConfigMismatch`] when ε is not
    /// finite and positive.
    pub fn from_tensor(weight: Tensor<T>, eps: u32) -> (res: Result<Self, PhalanxError>)
        ensures
            weight.dims().len() != 1 || weight.dims()[0] == 0 ==> is_layers_fault(
                res,
                LayersFault::InvalidWeightShape { name: OUTPUT_NORM_WEIGHT@ },
            ),
            weight.dims().len() == 1 && weight.dims()[0] > 0 && !f32_positive_finite(eps) ==> is_layers_fault(
                res,
                LayersFault::ConfigMismatch { name: OUTPUT_NORM_WEIGHT@ },
            ),
            weight.dims().len() == 1 && weight.dims()[0] > 0 && f32_positive_finite(eps) ==> (res matches Ok(n)
                && n.parts() == (weight, eps, weight.dims()[0])),
    {
        let shape = weight.shape().as_slice();
        if shape.len() != 1 {
            return Err(
                layers_err(
                    LayersError::InvalidWeightShape {
                        name: OUTPUT_NORM_WEIGHT,
                        reason: {
                            let mut r = "expected rank-1 [hidden], got ".to_owned();
                            r.append(usize_list_display(shape).as_str());
                            r
                        },
                    },
                ),
            );
        }
        let hidden_size = shape[0];
        if hidden_size == 0 {
            return Err(
                layers_err(
                    LayersError::InvalidWeightShape {
                        name: OUTPUT_NORM_WEIGHT,
                        reason: "hidden_size must be > 0".to_owned(),
                    },
                ),
            );
        }
        if !(0 < eps && eps < F32_INFINITY_BITS) {
            return Err(
                layers_err(
                    LayersError::ConfigMismatch {
                        name: OUTPUT_NORM_WEIGHT,
                        reason: "rms_norm_eps must be finite and > 0".to_owned(),
                    },
                ),
            );
        }
        Ok(RmsNorm { weight, eps, hidden_size })
    }

    /// Hidden / embedding length `D`.
    pub fn hidden_size(&self) -> (res: usize)
        ensures
            res == self.parts().2,
    {
        self.hidden_size
    }

    /// Stabilizer ε (an `f32` bit pattern).
    pub fn eps(&self) -> (res: u32)
        ensures
            res == self.parts().1,
    {
        self.eps
    }

    /// Scale parameter γ.
    pub fn weight(&self) -> (res: &Tensor<T>)
        ensures
            *res == self.parts().0,
    {
        &self.weight
    }

    /// Check an activation shape for the forward pass: rank at least 1 with
    /// last axis `D`.
    ///
    /// Fails with [`LayersError::InvalidActivationShape`] (op `rmsnorm`)
    /// otherwise.
    pub fn check_input(&self, dims: &[usize]) -> (res: Result<(), PhalanxError>)
        ensures
            dims@.len() >= 1 && dims@.last() == self.parts().2 ==> res is Ok,
            !(dims@.len() >= 1 && dims@.last() == self.parts().2) ==> is_layers_fault(
                res,
                LayersFault::InvalidActivationShape { op: "rmsnorm"@ },
            ),
    {
        if dims.len() == 0 {
            return Err(
                layers_err(
                    LayersError::InvalidActivationShape {
                        op: "rmsnorm",
                        reason: "expected rank >= 1".to_owned(),
                    },
                ),
            );
        }
        if dims[dims.len() - 1] != self.hidden_size {
            return Err(
                layers_err(
                    LayersError::InvalidActivationShape {
                        op: "rmsnorm",
                        reason: last_dim_reason(dims[dims.len() - 1], self.hidden_size),
                    },
                ),
            );
        }
        Ok(())
    }
}

} // verus!
