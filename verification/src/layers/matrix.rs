//! Locating and shape-checking a projection matrix in a weight set.

use vstd::prelude::*;
use vstd::string::StringExecFns;

use super::error::{is_layers_fault, layers_err, LayersError, LayersFault};
use crate::errors::PhalanxError;
use crate::messages::list_display;
use crate::text::decimal_string;
use crate::weights::{WeightSet, WeightTensor, WeightsError};

verus! {

/// Drop trailing unit dimensions, keeping at least one
/// (`[d, 1, 1]` becomes `[d]`).
pub open spec fn squeeze_ones(dims: Seq<u64>) -> Seq<u64>
    decreases dims.len(),
{
    if dims.len() > 1 && dims.last() == 1 {
        squeeze_ones(dims.drop_last())
    } else {
        dims
    }
}

/// Drop trailing unit dimensions some converters append, keeping one.
pub fn squeeze_trailing_ones(dims: &[u64]) -> (res: Vec<u64>)
    ensures
        res@ == squeeze_ones(dims@),
{
    let mut end = dims.len();
    assert(dims@.take(end as int) =~= dims@);
    while end > 1 && dims[end - 1] == 1
        invariant
            end <= dims@.len(),
            squeeze_ones(dims@) == squeeze_ones(dims@.take(end as int)),
        decreases end,
    {
        proof {
            assert(dims@.take(end as int).drop_last() =~= dims@.take(end - 1));
            assert(dims@.take(end as int).last() == dims@[end - 1]);
        }
        end = end - 1;
    }
    let mut out: Vec<u64> = Vec::new();
    let mut i: usize = 0;
    while i < end
        invariant
            i <= end <= dims@.len(),
            out@ == dims@.take(i as int),
        decreases end - i,
    {
        proof {
            assert(dims@.take(i + 1) =~= dims@.take(i as int).push(dims@[i as int]));
        }
        out.push(dims[i]);
        i = i + 1;
    }
    out
}

/// Whether a projection record with these dimensions can be read as a
/// row-major `[rows, cols]` matrix: after squeezing it must be rank 2 with
/// each axis in `usize`, and be `[cols, rows]` in ggml order or already
/// `[rows, cols]`. Failures name `label`.
pub open spec fn matrix_check(dims: Seq<u64>, rows: usize, cols: usize, label: Seq<char>) -> Result<(), LayersFault> {
    let d = squeeze_ones(dims);
    if d.len() != 2 || d[0] > usize::MAX || d[1] > usize::MAX {
        Err(LayersFault::InvalidWeightShape { name: label })
    } else if (d[0] == cols && d[1] == rows) || (d[0] == rows && d[1] == cols) {
        Ok(())
    } else {
        Err(LayersFault::ConfigMismatch { name: label })
    }
}

/// Check the dimensions of the projection record `name` as
/// [`matrix_check`] does.
pub fn check_matrix_dims(name: &str, dims: &[u64], rows: usize, cols: usize, label: &'static str) -> (res: Result<(), PhalanxError>)
    ensures
        match matrix_check(dims@, rows, cols, label@) {
            Ok(()) => res is Ok,
            Err(f) => is_layers_fault(res, f),
        },
{
    let d = squeeze_trailing_ones(dims);
    if d.len() != 2 {
        let mut reason = "expected rank-2 for '".to_owned();
        reason.append(name);
        reason.append("', got ");
        reason.append(list_display(dims).as_str());
        return Err(layers_err(LayersError::InvalidWeightShape { name: label, reason }));
    }
    if d[0] > usize::MAX as u64 || d[1] > usize::MAX as u64 {
        let value = if d[0] > usize::MAX as u64 {
            d[0]
        } else {
            d[1]
        };
        let mut reason = name.to_owned();
        reason.append(": dimension ");
        reason.append(decimal_string(value).as_str());
        reason.append(" does not fit usize");
        return Err(layers_err(LayersError::InvalidWeightShape { name: label, reason }));
    }
    let ne0 = d[0] as usize;
    let ne1 = d[1] as usize;
    if (ne0 == cols && ne1 == rows) || (ne0 == rows && ne1 == cols) {
        return Ok(());
    }
    let mut reason = "'".to_owned();
    reason.append(name);
    reason.append("' dims ");
    reason.append(list_display(d.as_slice()).as_str());
    reason.append(" incompatible with expected [");
    reason.append(decimal_string(rows as u64).as_str());
    reason.append(", ");
    reason.append(decimal_string(cols as u64).as_str());
    reason.append("]");
    Err(layers_err(LayersError::ConfigMismatch { name: label, reason }))
}

/// Look up the projection `name` and check that it reads as `[rows, cols]`:
/// the loading half of building a layer from a weight set, before the
/// payload is materialised. A missing tensor fails with
/// [`LayersError::InvalidWeightShape`] under `label`; other lookup failures
/// pass through.
pub fn resolve_matrix<'a>(weights: &'a WeightSet, name: &str, rows: usize, cols: usize, label: &'static str) -> (res: Result<WeightTensor<'a>, PhalanxError>)
    ensures
        crate::gguf::file::tensor_index(weights.directory().tensors@, name@) is None ==> is_layers_fault(
            res,
            LayersFault::InvalidWeightShape { name: label@ },
        ),
        res matches Ok(v) ==> v.info.name@ == name@ && matrix_check(v.info.dimensions@, rows, cols, label@) is Ok,
        weights.owned_bytes() is Some ==> match crate::gguf::file::tensor_index(
            weights.directory().tensors@,
            name@,
        ) {
            Some(i) => match matrix_check(weights.directory().tensors@[i].dimensions@, rows, cols, label@) {
                Ok(()) => res is Ok,
                Err(f) => is_layers_fault(res, f),
            },
            None => true,
        },
{
    let view = match weights.tensor(name) {
        Ok(v) => v,
        Err(PhalanxError::Weights(WeightsError::TensorNotFound { .. })) => {
            let mut reason = "tensor '".to_owned();
            reason.append(name);
            reason.append("' not found in weight set");
            return Err(layers_err(LayersError::InvalidWeightShape { name: label, reason }));
        },
        Err(other) => {
            return Err(other);
        },
    };
    proof {
        crate::search::lemma_first_index_spec(
            weights.directory().tensors@,
            |t: crate::gguf::TensorInfo| t.name@ == name@,
        );
    }
    match check_matrix_dims(name, view.info.dimensions.as_slice(), rows, cols, label) {
        Ok(()) => Ok(view),
        Err(e) => Err(e),
    }
}

} // verus!
