//! Rotary positional embeddings (`RoPE`): parameter validation, linear
//! position scaling, and the activation / position checks of the kernel.
//!
//! `θ` and the linear scale factor are `f32` bit patterns; the cos/sin
//! tables are computed from them by the float kernel.

use vstd::prelude::*;
use vstd::string::StringExecFns;

use super::error::{is_layers_fault, layers_err, LayersError, LayersFault};
use crate::errors::PhalanxError;
use crate::floatbits::{f32_positive_finite, F32_INFINITY_BITS};
use crate::model::config::ScalingModel;
use crate::messages::usize_list_display;
use crate::model::{ModelConfig, RopeConfig};
use crate::text::{decimal_string, str_eq};

verus! {

/// Bit pattern of `1.0_f32`: no position scaling.
pub const UNIT_SCALE: u32 = 0x3F80_0000;

/// Validated rotary parameters.
#[derive(Debug, Clone, Copy, PartialEq, Eq, Structural)]
pub struct Rope {
    rotary_dim: usize,
    head_dim: usize,
    freq_base: u32,
    scale: u32,
    max_position: usize,
}

/// Linear position scale of an optional scaling declaration: `1.0` without
/// one; only `linear` (also `Linear` or an empty name) is accepted, with a
/// finite positive factor (`1.0` when absent).
pub open spec fn linear_scale_of(scaling: Option<ScalingModel>) -> Result<u32, LayersFault> {
    match scaling {
        None => Ok(UNIT_SCALE),
        Some(s) => if !(s.scaling_type == "linear"@ || s.scaling_type == "Linear"@ || s.scaling_type
            == ""@) {
            Err(LayersFault::InvalidActivationShape { op: "rope"@ })
        } else {
            let f = match s.factor {
                Some(x) => x,
                None => UNIT_SCALE,
            };
            if f32_positive_finite(f) {
                Ok(f)
            } else {
                Err(LayersFault::InvalidActivationShape { op: "rope"@ })
            }
        },
    }
}

/// The checks of `Rope::from_rope_config`, in order; on success the
/// rotary width and the scale.
pub open spec fn rope_check(
    dimension_count: u32,
    freq_base: u32,
    scaling: Option<ScalingModel>,
    head_dim: usize,
    max_position: usize,
) -> Result<(usize, u32), LayersFault> {
    let rotary = dimension_count as usize;
    if max_position == 0 || head_dim == 0 || rotary == 0 || rotary % 2 != 0 || rotary > head_dim
        || !f32_positive_finite(freq_base) {
        Err(LayersFault::InvalidActivationShape { op: "rope"@ })
    } else {
        match linear_scale_of(scaling) {
            Ok(s) => Ok((rotary, s)),
            Err(f) => Err(f),
        }
    }
}

fn rope_error(reason: &str) -> (e: PhalanxError)
    ensures
        is_layers_fault::<()>(Err(e), LayersFault::InvalidActivationShape { op: "rope"@ }),
{
    layers_err(LayersError::InvalidActivationShape { op: "rope", reason: reason.to_owned() })
}

fn linear_scale(rope: &RopeConfig) -> (res: Result<u32, PhalanxError>)
    ensures
        match linear_scale_of(
            match rope.scaling {
                Some(s) => Some(s@),
                None => None,
            },
        ) {
            Ok(s) => res == Ok::<u32, PhalanxError>(s),
            Err(f) => is_layers_fault(res, f),
        },
{
    let scaling = match &rope.scaling {
        None => {
            return Ok(UNIT_SCALE);
        },
        Some(s) => s,
    };
    let kind = scaling.scaling_type.as_str();
    if !(str_eq(kind, "linear") || str_eq(kind, "Linear") || str_eq(kind, "")) {
        let mut reason = "unsupported rope.scaling.type '".to_owned();
        reason.append(kind);
        reason.append("' (Phase 8 supports linear only)");
        return Err(rope_error(reason.as_str()));
    }
    let factor = match scaling.factor {
        Some(f) => f,
        None => UNIT_SCALE,
    };
    if !(0 < factor && factor < F32_INFINITY_BITS) {
        return Err(rope_error("rope.scaling.factor must be finite and > 0"));
    }
    Ok(factor)
}

impl Rope {
    /// `(rotary_dim, head_dim, freq_base, scale, max_position)`.
    pub closed spec fn params(&self) -> (usize, usize, u32, u32, usize) {
        (self.rotary_dim, self.head_dim, self.freq_base, self.scale, self.max_position)
    }

    /// Rotary parameters of a configuration: head width `key_length`, cache
    /// length `context_length`.
    pub fn from_config(config: &ModelConfig) -> (res: Result<Self, PhalanxError>)
        ensures
            match rope_check(
                config.rope.dimension_count,
                config.rope.freq_base,
                config@.rope_scaling,
                config.attention.key_length as usize,
                config.context_length as usize,
            ) {
                Ok((r, s)) => res matches Ok(rope) && rope.params() == (
                    r,
                    config.attention.key_length as usize,
                    config.rope.freq_base,
                    s,
                    config.context_length as usize,
                ),
                Err(f) => is_layers_fault(res, f),
            },
    {
        let max_position = config.context_length as usize;
        let head_dim = config.attention.key_length as usize;
        Self::from_rope_config(&config.rope, head_dim, max_position)
    }

    /// Validate explicit rotary parameters.
    ///
    /// Fails with [`LayersError::InvalidActivationShape`] (op `rope`) for an
    /// empty cache, a zero head width, an odd or zero rotary width, a rotary
    /// width past the head width, a θ that is not finite and positive, or a
    /// scaling other than linear with a finite positive factor.
    pub fn from_rope_config(rope: &RopeConfig, head_dim: usize, max_position: usize) -> (res: Result<Self, PhalanxError>)
        ensures
            match rope_check(
                rope.dimension_count,
                rope.freq_base,
                match rope.scaling {
                    Some(s) => Some(s@),
                    None => None,
                },
                head_dim,
                max_position,
            ) {
                Ok((r, s)) => res matches Ok(x) && x.params() == (r, head_dim, rope.freq_base, s, max_position),
                Err(f) => is_layers_fault(res, f),
            },
    {
        let rotary_dim = rope.dimension_count as usize;
        if max_position == 0 {
            return Err(rope_error("max_position (context length) must be > 0"));
        }
        if head_dim == 0 {
            return Err(rope_error("head_dim must be > 0"));
        }
        if rotary_dim == 0 || rotary_dim % 2 != 0 {
            let mut reason = "rope.dimension_count must be even and > 0, got ".to_owned();
            reason.append(decimal_string(rotary_dim as u64).as_str());
            return Err(rope_error(reason.as_str()));
        }
        if rotary_dim > head_dim {
            let mut reason = "rope.dimension_count (".to_owned();
            reason.append(decimal_string(rotary_dim as u64).as_str());
            reason.append(") exceeds head_dim (");
            reason.append(decimal_string(head_dim as u64).as_str());
            reason.append(")");
            return Err(rope_error(reason.as_str()));
        }
        if !(0 < rope.freq_base && rope.freq_base < F32_INFINITY_BITS) {
            return Err(rope_error("rope.freq_base must be finite and > 0"));
        }
        let scale = match linear_scale(rope) {
            Ok(s) => s,
            Err(e) => {
                return Err(e);
            },
        };
        Ok(Rope { rotary_dim, head_dim, freq_base: rope.freq_base, scale, max_position })
    }

    /// Rotary feature count (`rope.dimension_count`).
    pub fn rotary_dim(&self) -> (res: usize)
        ensures
            res == self.params().0,
    {
        self.rotary_dim
    }

    /// Full head width.
    pub fn head_dim(&self) -> (res: usize)
        ensures
            res == self.params().1,
    {
        self.head_dim
    }

    /// Number of cached absolute positions.
    pub fn max_position(&self) -> (res: usize)
        ensures
            res == self.params().4,
    {
        self.max_position
    }

    /// Base frequency θ (an `f32` bit pattern).
    pub fn freq_base(&self) -> (res: u32)
        ensures
            res == self.params().2,
    {
        self.freq_base
    }

    /// Linear position scale factor (an `f32` bit pattern).
    pub fn scale(&self) -> (res: u32)
        ensures
            res == self.params().3,
    {
        self.scale
    }

    /// Check positions `offset .. offset + seq` against the cache.
    ///
    /// An empty sequence is fine; otherwise fails with
    /// [`LayersError::InvalidActivationShape`] when the last position
    /// overflows `usize`, and with [`LayersError::RopePositionOutOfRange`]
    /// when it is past the cache.
    pub fn check_positions(&self, offset: usize, seq: usize) -> (res: Result<(), PhalanxError>)
        ensures
            seq == 0 ==> res is Ok,
            seq > 0 && offset + seq - 1 > usize::MAX ==> is_layers_fault(
                res,
                LayersFault::InvalidActivationShape { op: "rope"@ },
            ),
            seq > 0 && offset + seq - 1 <= usize::MAX && offset + seq - 1 >= self.params().4 ==> is_layers_fault(
                res,
                LayersFault::RopePositionOutOfRange {
                    position: (offset + seq - 1) as usize,
                    max_position: self.params().4,
                },
            ),
            seq > 0 && offset + seq - 1 < self.params().4 ==> res is Ok,
    {
        if seq == 0 {
            return Ok(());
        }
        let last = match offset.checked_add(seq - 1) {
            Some(l) => l,
            None => {
                return Err(rope_error("position offset + seq overflowed usize"));
            },
        };
        if last >= self.max_position {
            return Err(
                layers_err(
                    LayersError::RopePositionOutOfRange { position: last, max_position: self.max_position },
                ),
            );
        }
        Ok(())
    }

    /// `(seq, heads)` of an activation the rotation accepts, `[seq, head_dim]`
    /// (one head) or `[seq, heads, head_dim]`, after checking the head width
    /// and then the positions from `position_offset`.
    ///
    /// A wrong rank or head width fails with
    /// [`LayersError::InvalidActivationShape`]; positions fail as
    /// [`Rope::check_positions`] fails: [`LayersError::RopePositionOutOfRange`]
    /// for a last position past the cache, `InvalidActivationShape` when it
    /// overflows `usize`.
    pub fn check_input(&self, dims: &[usize], position_offset: usize) -> (res: Result<(usize, usize), PhalanxError>)
        ensures
            dims@.len() != 2 && dims@.len() != 3 ==> is_layers_fault(
                res,
                LayersFault::InvalidActivationShape { op: "rope"@ },
            ),
            (dims@.len() == 2 || dims@.len() == 3) && dims@.last() != self.params().1 ==> is_layers_fault(
                res,
                LayersFault::InvalidActivationShape { op: "rope"@ },
            ),
            (dims@.len() == 2 || dims@.len() == 3) && dims@.last() == self.params().1 && (dims@[0] == 0
                || position_offset + dims@[0] - 1 < self.params().4) ==> res == Ok::<(usize, usize), PhalanxError>(
                (dims@[0], if dims@.len() == 2 { 1usize } else { dims@[1] }),
            ),
            (dims@.len() == 2 || dims@.len() == 3) && dims@.last() == self.params().1 && dims@[0] > 0
                && position_offset + dims@[0] - 1 > usize::MAX ==> is_layers_fault(
                res,
                LayersFault::InvalidActivationShape { op: "rope"@ },
            ),
            (dims@.len() == 2 || dims@.len() == 3) && dims@.last() == self.params().1 && dims@[0] > 0
                && position_offset + dims@[0] - 1 <= usize::MAX && position_offset + dims@[0] - 1
                >= self.params().4 ==> is_layers_fault(
                res,
                LayersFault::RopePositionOutOfRange {
                    position: (position_offset + dims@[0] - 1) as usize,
                    max_position: self.params().4,
                },
            ),
    {
        if dims.len() != 2 && dims.len() != 3 {
            let mut reason = "expected rank 2 [seq, head_dim] or rank 3 [seq, heads, head_dim], got rank ".to_owned();
            reason.append(decimal_string(dims.len() as u64).as_str());
            reason.append(" (");
            reason.append(usize_list_display(dims).as_str());
            reason.append(")");
            return Err(rope_error(reason.as_str()));
        }
        let seq = dims[0];
        let heads: usize = if dims.len() == 2 {
            1
        } else {
            dims[1]
        };
        let dim = dims[dims.len() - 1];
        if dim != self.head_dim {
            let mut reason = "last dim ".to_owned();
            reason.append(decimal_string(dim as u64).as_str());
            reason.append(" != configured head_dim ");
            reason.append(decimal_string(self.head_dim as u64).as_str());
            return Err(rope_error(reason.as_str()));
        }
        match self.check_positions(position_offset, seq) {
            Ok(()) => Ok((seq, heads)),
            Err(e) => Err(e),
        }
    }
}

} // verus!
