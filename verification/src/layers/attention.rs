//! Causal multi-head / grouped-query attention: weight-shape validation and
//! the activation layout the kernel accepts.
//!
//! GQA: `H / H_kv` query heads share one KV head (LLaMA-style). Weights are
//! `w_q` `[H·d, D]`, `w_k` / `w_v` `[H_kv·d, D]`, `w_o` `[D, H·d]`.

use vstd::prelude::*;
use vstd::string::StringExecFns;

use super::error::{is_layers_fault, layers_err, LayersError, LayersFault};
use crate::errors::PhalanxError;
use crate::messages::{list_text, usize_list_display};
use crate::tensor::Tensor;
use crate::text::{decimal, decimal_string};

verus! {

/// Causal self-attention with optional GQA.
#[derive(Debug)]
pub struct Attention<T> {
    w_q: Tensor<T>,
    w_k: Tensor<T>,
    w_v: Tensor<T>,
    w_o: Tensor<T>,
    hidden_size: usize,
    num_heads: usize,
    num_kv_heads: usize,
    head_dim: usize,
}

/// The checks of `Attention::from_tensors` on the weight dimensions, in
/// order; on success the hidden size `D` (the query weight's second axis).
pub open spec fn attention_check(
    q: Seq<usize>,
    k: Seq<usize>,
    v: Seq<usize>,
    o: Seq<usize>,
    heads: usize,
    kv_heads: usize,
    head_dim: usize,
) -> Result<usize, LayersFault> {
    let q_out = heads * head_dim;
    let kv_out = kv_heads * head_dim;
    if heads == 0 || kv_heads == 0 || head_dim == 0 {
        Err(LayersFault::InvalidWeightShape { name: "attn_q.weight"@ })
    } else if heads % kv_heads != 0 {
        Err(LayersFault::InvalidWeightShape { name: "attn_q.weight"@ })
    } else if q.len() != 2 || k.len() != 2 || v.len() != 2 || o.len() != 2 {
        Err(LayersFault::InvalidWeightShape { name: "attn_q.weight"@ })
    } else if q[0] != q_out {
        Err(LayersFault::InvalidWeightShape { name: "attn_q.weight"@ })
    } else if k[0] != kv_out || k[1] != q[1] {
        Err(LayersFault::InvalidWeightShape { name: "attn_k.weight"@ })
    } else if v[0] != kv_out || v[1] != q[1] {
        Err(LayersFault::InvalidWeightShape { name: "attn_v.weight"@ })
    } else if o[0] != q[1] || o[1] != q_out {
        Err(LayersFault::InvalidWeightShape { name: "attn_output.weight"@ })
    } else {
        Ok(q[1])
    }
}

/// `(batch, seq)` of an activation `[seq, D]` or `[batch, seq, D]`.
pub open spec fn activation_layout_of(dims: Seq<usize>, hidden: usize) -> Option<(usize, usize)> {
    if dims.len() < 2 || dims.last() != hidden {
        None
    } else if dims.len() == 2 {
        Some((1usize, dims[0]))
    } else if dims.len() == 3 {
        Some((dims[0], dims[1]))
    } else {
        None
    }
}

/// `expected [rows, cols], got <dims>`.
fn expected_matrix(rows: usize, cols: usize, got: &[usize]) -> (res: String)
    ensures
        res@ == "expected ["@ + decimal(rows as nat) + ", "@ + decimal(cols as nat) + "], got "@ + list_text(
            got@.map_values(|v: usize| v as nat),
        ),
{
    let mut s = "expected [".to_owned();
    s.append(decimal_string(rows as u64).as_str());
    s.append(", ");
    s.append(decimal_string(cols as u64).as_str());
    s.append("], got ");
    s.append(usize_list_display(got).as_str());
    s
}

/// `expected rank >= 2 with last dim D, got <dims>`.
pub(crate) fn rank_two_reason(dims: &[usize]) -> (res: String)
    ensures
        res@ == "expected rank >= 2 with last dim D, got "@ + list_text(dims@.map_values(|v: usize| v as nat)),
{
    let mut s = "expected rank >= 2 with last dim D, got ".to_owned();
    s.append(usize_list_display(dims).as_str());
    s
}

/// `last dim <dim> != configured hidden_size <hidden>`.
pub(crate) fn last_dim_reason(dim: usize, hidden: usize) -> (res: String)
    ensures
        res@ == "last dim "@ + decimal(dim as nat) + " != configured hidden_size "@ + decimal(hidden as nat),
{
    let mut s = "last dim ".to_owned();
    s.append(decimal_string(dim as u64).as_str());
    s.append(" != configured hidden_size ");
    s.append(decimal_string(hidden as u64).as_str());
    s
}

fn shape_error(name: &'static str, reason: &str) -> (e: PhalanxError)
    ensures
        is_layers_fault::<()>(Err(e), LayersFault::InvalidWeightShape { name: name@ }),
{
    layers_err(LayersError::InvalidWeightShape { name, reason: reason.to_owned() })
}

impl<T> Attention<T> {
    /// Hidden size, head counts and head width, as validated.
    pub closed spec fn layout(&self) -> (usize, usize, usize, usize) {
        (self.hidden_size, self.num_heads, self.num_kv_heads, self.head_dim)
    }

    /// The four projection weights.
    pub closed spec fn weights(&self) -> (Tensor<T>, Tensor<T>, Tensor<T>, Tensor<T>) {
        (self.w_q, self.w_k, self.w_v, self.w_o)
    }

    /// Build from materialised weights.
    ///
    /// Fails with [`LayersError::InvalidWeightShape`] at the first check of
    /// [`attention_check`] that does not hold (naming the weight at fault).
    pub fn from_tensors(
        w_q: Tensor<T>,
        w_k: Tensor<T>,
        w_v: Tensor<T>,
        w_o: Tensor<T>,
        num_heads: usize,
        num_kv_heads: usize,
        head_dim: usize,
    ) -> (res: Result<Self, PhalanxError>)
        requires
            num_heads * head_dim <= usize::MAX,
            num_kv_heads * head_dim <= usize::MAX,
        ensures
            match attention_check(w_q.dims(), w_k.dims(), w_v.dims(), w_o.dims(), num_heads, num_kv_heads, head_dim) {
                Ok(hidden) => res matches Ok(a) && a.layout() == (hidden, num_heads, num_kv_heads, head_dim)
                    && a.weights() == (w_q, w_k, w_v, w_o),
                Err(f) => is_layers_fault(res, f),
            },
    {
        if num_heads == 0 || num_kv_heads == 0 || head_dim == 0 {
            return Err(shape_error("attn_q.weight", "num_heads, num_kv_heads, and head_dim must be > 0"));
        }
        if num_heads % num_kv_heads != 0 {
            let mut reason = "num_heads (".to_owned();
            reason.append(decimal_string(num_heads as u64).as_str());
            reason.append(") must be divisible by num_kv_heads (");
            reason.append(decimal_string(num_kv_heads as u64).as_str());
            reason.append(")");
            return Err(shape_error("attn_q.weight", reason.as_str()));
        }
        let q_out = num_heads * head_dim;
        let kv_out = num_kv_heads * head_dim;
        let q = w_q.shape().as_slice();
        let k = w_k.shape().as_slice();
        let v = w_v.shape().as_slice();
        let o = w_o.shape().as_slice();
        if q.len() != 2 || k.len() != 2 || v.len() != 2 || o.len() != 2 {
            let mut reason = "expected rank-2 weights, got q=".to_owned();
            reason.append(usize_list_display(q).as_str());
            reason.append(" k=");
            reason.append(usize_list_display(k).as_str());
            reason.append(" v=");
            reason.append(usize_list_display(v).as_str());
            reason.append(" o=");
            reason.append(usize_list_display(o).as_str());
            return Err(shape_error("attn_q.weight", reason.as_str()));
        }
        let hidden = q[1];
        if q[0] != q_out {
            return Err(shape_error("attn_q.weight", expected_matrix(q_out, hidden, q).as_str()));
        }
        if k[0] != kv_out || k[1] != hidden {
            return Err(shape_error("attn_k.weight", expected_matrix(kv_out, hidden, k).as_str()));
        }
        if v[0] != kv_out || v[1] != hidden {
            return Err(shape_error("attn_v.weight", expected_matrix(kv_out, hidden, v).as_str()));
        }
        if o[0] != hidden || o[1] != q_out {
            return Err(shape_error("attn_output.weight", expected_matrix(hidden, q_out, o).as_str()));
        }
        Ok(Attention { w_q, w_k, w_v, w_o, hidden_size: hidden, num_heads, num_kv_heads, head_dim })
    }

    /// Hidden / embedding length `D`.
    pub fn hidden_size(&self) -> (res: usize)
        ensures
            res == self.layout().0,
    {
        self.hidden_size
    }

    /// Query head count `H`.
    pub fn num_heads(&self) -> (res: usize)
        ensures
            res == self.layout().1,
    {
        self.num_heads
    }

    /// KV head count `H_kv`.
    pub fn num_kv_heads(&self) -> (res: usize)
        ensures
            res == self.layout().2,
    {
        self.num_kv_heads
    }

    /// Per-head dimension `d`.
    pub fn head_dim(&self) -> (res: usize)
        ensures
            res == self.layout().3,
    {
        self.head_dim
    }

    /// Query projection weight `[H·d, D]`.
    pub fn w_q(&self) -> (res: &Tensor<T>)
        ensures
            *res == self.weights().0,
    {
        &self.w_q
    }

    /// Key projection weight `[H_kv·d, D]`.
    pub fn w_k(&self) -> (res: &Tensor<T>)
        ensures
            *res == self.weights().1,
    {
        &self.w_k
    }

    /// Value projection weight `[H_kv·d, D]`.
    pub fn w_v(&self) -> (res: &Tensor<T>)
        ensures
            *res == self.weights().2,
    {
        &self.w_v
    }

    /// Output projection weight `[D, H·d]`.
    pub fn w_o(&self) -> (res: &Tensor<T>)
        ensures
            *res == self.weights().3,
    {
        &self.w_o
    }

    /// `(batch, seq)` of an activation the forward pass accepts: `[seq, D]`
    /// or `[batch, seq, D]` with `D` the hidden size.
    ///
    /// Fails with [`LayersError::InvalidActivationShape`] (op `attention`)
    /// for any other shape.
    pub fn activation_layout(&self, dims: &[usize]) -> (res: Result<(usize, usize), PhalanxError>)
        ensures
            match activation_layout_of(dims@, self.layout().0) {
                Some(p) => res == Ok::<(usize, usize), PhalanxError>(p),
                None => is_layers_fault(res, LayersFault::InvalidActivationShape { op: "attention"@ }),
            },
    {
        if dims.len() < 2 {
            return Err(
                layers_err(
                    LayersError::InvalidActivationShape {
                        op: "attention",
                        reason: rank_two_reason(dims),
                    },
                ),
            );
        }
        let dim = dims[dims.len() - 1];
        if dim != self.hidden_size {
            return Err(
                layers_err(
                    LayersError::InvalidActivationShape {
                        op: "attention",
                        reason: last_dim_reason(dim, self.hidden_size),
                    },
                ),
            );
        }
        if dims.len() == 2 {
            Ok((1, dims[0]))
        } else if dims.len() == 3 {
            Ok((dims[0], dims[1]))
        } else {
            Err(
                layers_err(
                    LayersError::InvalidActivationShape {
                        op: "attention",
                        reason: {
                            let mut r = "expected rank 2 or 3, got rank ".to_owned();
                            r.append(decimal_string(dims.len() as u64).as_str());
                            r.append(" (");
                            r.append(usize_list_display(dims).as_str());
                            r.append(")");
                            r
                        },
                    },
                ),
            )
        }
    }
}

} // verus!
