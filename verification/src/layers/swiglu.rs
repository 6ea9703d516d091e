//! LLaMA-style `SwiGLU` feed-forward network: weight-shape validation and
//! the activation shapes the kernel accepts.
//!
//! Weights: gate `w1` `[I, D]`, up `w3` `[I, D]`, down `w2` `[D, I]`.

use vstd::prelude::*;
use vstd::string::StringExecFns;

use super::error::{is_layers_fault, layers_err, LayersError, LayersFault};
use super::attention::{last_dim_reason, rank_two_reason};
use crate::errors::PhalanxError;
use crate::messages::usize_list_display;
use crate::tensor::Tensor;
use crate::text::decimal_string;

verus! {

/// `SwiGLU` feed-forward: gate × up → down.
#[derive(Debug)]
pub struct SwiGlu<T> {
    w_gate: Tensor<T>,
    w_up: Tensor<T>,
    w_down: Tensor<T>,
    hidden_size: usize,
    intermediate_size: usize,
}

/// The checks of `SwiGlu::from_tensors`, in order; on success
/// `(hidden, intermediate)`.
pub open spec fn swiglu_check(g: Seq<usize>, u: Seq<usize>, d: Seq<usize>) -> Result<(usize, usize), LayersFault> {
    if g.len() != 2 || u.len() != 2 || d.len() != 2 {
        Err(LayersFault::InvalidWeightShape { name: "ffn_gate.weight"@ })
    } else if g != u {
        Err(LayersFault::InvalidWeightShape { name: "ffn_gate.weight"@ })
    } else if g[0] == 0 || g[1] == 0 {
        Err(LayersFault::InvalidWeightShape { name: "ffn_gate.weight"@ })
    } else if d[0] != g[1] || d[1] != g[0] {
        Err(LayersFault::InvalidWeightShape { name: "ffn_down.weight"@ })
    } else {
        Ok((g[1], g[0]))
    }
}

/// Activations of rank at least 2 whose last axis is the hidden size.
pub open spec fn ffn_input_ok(dims: Seq<usize>, hidden: usize) -> bool {
    dims.len() >= 2 && dims.last() == hidden
}

fn ffn_shape_error(name: &'static str, reason: &str) -> (e: PhalanxError)
    ensures
        is_layers_fault::<()>(Err(e), LayersFault::InvalidWeightShape { name: name@ }),
{
    layers_err(LayersError::InvalidWeightShape { name, reason: reason.to_owned() })
}

impl<T> SwiGlu<T> {
    /// `(hidden, intermediate)` as validated.
    pub closed spec fn sizes(&self) -> (usize, usize) {
        (self.hidden_size, self.intermediate_size)
    }

    /// The three weights `(gate, up, down)`.
    pub closed spec fn weights(&self) -> (Tensor<T>, Tensor<T>, Tensor<T>) {
        (self.w_gate, self.w_up, self.w_down)
    }

    /// Build from materialised weights.
    ///
    /// Fails with [`LayersError::InvalidWeightShape`] at the first check of
    /// [`swiglu_check`] that does not hold.
    pub fn from_tensors(w_gate: Tensor<T>, w_up: Tensor<T>, w_down: Tensor<T>) -> (res: Result<Self, PhalanxError>)
        ensures
            match swiglu_check(w_gate.dims(), w_up.dims(), w_down.dims()) {
                Ok(sz) => res matches Ok(f) && f.sizes() == sz && f.weights() == (w_gate, w_up, w_down),
                Err(e) => is_layers_fault(res, e),
            },
    {
        let g = w_gate.shape().as_slice();
        let u = w_up.shape().as_slice();
        let d = w_down.shape().as_slice();
        if g.len() != 2 || u.len() != 2 || d.len() != 2 {
            let mut reason = "expected rank-2 weights, got gate=".to_owned();
            reason.append(usize_list_display(g).as_str());
            reason.append(" up=");
            reason.append(usize_list_display(u).as_str());
            reason.append(" down=");
            reason.append(usize_list_display(d).as_str());
            return Err(ffn_shape_error("ffn_gate.weight", reason.as_str()));
        }
        if g[0] != u[0] || g[1] != u[1] {
            let mut reason = "gate shape ".to_owned();
            reason.append(usize_list_display(g).as_str());
            reason.append(" != up shape ");
            reason.append(usize_list_display(u).as_str());
            return Err(ffn_shape_error("ffn_gate.weight", reason.as_str()));
        }
        assert(g@ =~= u@);
        let intermediate = g[0];
        let hidden = g[1];
        if intermediate == 0 || hidden == 0 {
            return Err(ffn_shape_error("ffn_gate.weight", "hidden and intermediate sizes must be > 0"));
        }
        if d[0] != hidden || d[1] != intermediate {
            let mut reason = "down expected [".to_owned();
            reason.append(decimal_string(hidden as u64).as_str());
            reason.append(", ");
            reason.append(decimal_string(intermediate as u64).as_str());
            reason.append("], got ");
            reason.append(usize_list_display(d).as_str());
            return Err(ffn_shape_error("ffn_down.weight", reason.as_str()));
        }
        Ok(SwiGlu { w_gate, w_up, w_down, hidden_size: hidden, intermediate_size: intermediate })
    }

    /// Hidden / embedding length `D`.
    pub fn hidden_size(&self) -> (res: usize)
        ensures
            res == self.sizes().0,
    {
        self.hidden_size
    }

    /// Intermediate / FFN width `I`.
    pub fn intermediate_size(&self) -> (res: usize)
        ensures
            res == self.sizes().1,
    {
        self.intermediate_size
    }

    /// Gate weight `w1` (`[I, D]`).
    pub fn w_gate(&self) -> (res: &Tensor<T>)
        ensures
            *res == self.weights().0,
    {
        &self.w_gate
    }

    /// Up weight `w3` (`[I, D]`).
    pub fn w_up(&self) -> (res: &Tensor<T>)
        ensures
            *res == self.weights().1,
    {
        &self.w_up
    }

    /// Down weight `w2` (`[D, I]`).
    pub fn w_down(&self) -> (res: &Tensor<T>)
        ensures
            *res == self.weights().2,
    {
        &self.w_down
    }

    /// Check an activation shape for the forward pass: rank at least 2 with
    /// last axis `D`.
    ///
    /// Fails with [`LayersError::InvalidActivationShape`] (op `swiglu`)
    /// otherwise.
    pub fn check_input(&self, dims: &[usize]) -> (res: Result<(), PhalanxError>)
        ensures
            ffn_input_ok(dims@, self.sizes().0) ==> res is Ok,
            !ffn_input_ok(dims@, self.sizes().0) ==> is_layers_fault(
                res,
                LayersFault::InvalidActivationShape { op: "swiglu"@ },
            ),
    {
        if dims.len() < 2 {
            return Err(
                layers_err(
                    LayersError::InvalidActivationShape {
                        op: "swiglu",
                        reason: rank_two_reason(dims),
                    },
                ),
            );
        }
        if dims[dims.len() - 1] != self.hidden_size {
            return Err(
                layers_err(
                    LayersError::InvalidActivationShape {
                        op: "swiglu",
                        reason: last_dim_reason(dims[dims.len() - 1], self.hidden_size),
                    },
                ),
            );
        }
        Ok(())
    }
}

} // verus!
