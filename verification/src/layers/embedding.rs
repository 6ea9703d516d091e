//! Token embedding lookup (`token_embd.weight`).
//!
//! Maps each token id to a row of length `n_embd`. GGUF stores the table
//! with dimensions `[n_embd, n_vocab]` in ggml order (`ne[0]` innermost),
//! which is byte-for-byte a row-major `[n_vocab, n_embd]` table: the loader
//! reinterprets the buffer with that shape and gathers rows.

use vstd::prelude::*;

use super::error::{is_layers_fault, layers_err, LayersError, LayersFault};
use super::names::TOKEN_EMBD_WEIGHT;
use crate::errors::PhalanxError;
use crate::messages::{list_display, usize_list_display};
use crate::model::ModelConfig;
use crate::tensor::shape::{lemma_product_one, lemma_product_two, product, product_fits};
use crate::tensor::{Shape, Tensor, TensorFault};
use crate::text::decimal_string;
use crate::weights::{WeightSet, WeightTensor, WeightsError, WeightsFault};
use vstd::string::StringExecFns;

verus! {

/// Dense token embedding table ready for gather.
#[derive(Debug)]
pub struct EmbeddingTable<T> {
    /// Row-major `[vocab_size, embedding_length]` weight matrix.
    weight: Tensor<T>,
    vocab_size: usize,
    embedding_length: usize,
}

/// Row `id` of a row-major table with rows of `width` elements.
pub open spec fn table_row<T>(data: Seq<T>, width: int, id: int) -> Seq<T> {
    data.subrange(id * width, id * width + width)
}

/// Rows of `ids`, concatenated.
pub open spec fn gathered<T>(data: Seq<T>, width: int, ids: Seq<u32>) -> Seq<T> {
    ids.map_values(|id: u32| table_row(data, width, id as int)).flatten_alt()
}

/// First id of `ids` outside `[0, vocab)`, if any.
pub open spec fn first_bad_id(ids: Seq<u32>, vocab: int) -> Option<int> {
    crate::search::first_index(ids, |id: u32| id >= vocab)
}

/// Drop trailing unit dimensions, keeping at least two
/// (`[e, v, 1, 1]` becomes `[e, v]`).
pub open spec fn squeeze_to_matrix(dims: Seq<u64>) -> Seq<u64>
    decreases dims.len(),
{
    if dims.len() > 2 && dims.last() == 1 {
        squeeze_to_matrix(dims.drop_last())
    } else {
        dims
    }
}

/// `(n_embd, n_vocab)` of a `token_embd.weight` record checked against the
/// configuration.
pub open spec fn embedding_dims(dims: Seq<u64>, embedding_length: u32, vocab_size: Option<u32>) -> Result<(usize, usize), LayersFault> {
    let d = squeeze_to_matrix(dims);
    if d.len() != 2 {
        Err(LayersFault::InvalidWeightShape { name: TOKEN_EMBD_WEIGHT@ })
    } else if d[0] > usize::MAX || d[1] > usize::MAX {
        Err(LayersFault::InvalidWeightShape { name: TOKEN_EMBD_WEIGHT@ })
    } else if d[0] != embedding_length {
        Err(LayersFault::ConfigMismatch { name: TOKEN_EMBD_WEIGHT@ })
    } else if vocab_size matches Some(v) && v != d[1] {
        Err(LayersFault::ConfigMismatch { name: TOKEN_EMBD_WEIGHT@ })
    } else {
        Ok((d[0] as usize, d[1] as usize))
    }
}

fn squeeze_matrix_dims(dims: &[u64]) -> (res: Vec<u64>)
    ensures
        res@ == squeeze_to_matrix(dims@),
{
    let mut end = dims.len();
    assert(dims@.take(end as int) =~= dims@);
    while end > 2 && dims[end - 1] == 1
        invariant
            end <= dims@.len(),
            squeeze_to_matrix(dims@) == squeeze_to_matrix(dims@.take(end as int)),
        decreases end,
    {
        proof {
            assert(dims@.take(end as int).drop_last() =~= dims@.take(end - 1));
            assert(dims@.take(end as int).last() == dims@[end - 1]);
        }
        end = end - 1;
    }
    proof {
        if end <= dims@.len() {
            assert(dims@.take(end as int).len() == end);
        }
    }
    let mut out: Vec<u64> = Vec::new();
    let mut i: usize = 0;
    while i < end
        invariant
            i <= end <= dims@.len(),
            out@ == dims@.take(i as int),
        decreases end - i,
    {
        proof {
            assert(dims@.take(i + 1) =~= dims@.take(i as int).push(dims@[i as int]));
        }
        out.push(dims[i]);
        i = i + 1;
    }
    proof {
        if end == dims@.len() {
            assert(dims@.take(end as int) =~= dims@);
        }
    }
    out
}

fn embedding_shape_error(reason: String) -> (e: PhalanxError)
    ensures
        is_layers_fault::<()>(Err(e), LayersFault::InvalidWeightShape { name: TOKEN_EMBD_WEIGHT@ }),
{
    layers_err(LayersError::InvalidWeightShape { name: TOKEN_EMBD_WEIGHT, reason })
}

fn embedding_config_error(reason: String) -> (e: PhalanxError)
    ensures
        is_layers_fault::<()>(Err(e), LayersFault::ConfigMismatch { name: TOKEN_EMBD_WEIGHT@ }),
{
    layers_err(LayersError::ConfigMismatch { name: TOKEN_EMBD_WEIGHT, reason })
}

/// Check a `token_embd.weight` record's dimensions against the configuration.
pub fn check_embedding_dims(dims: &[u64], embedding_length: u32, vocab_size: Option<u32>) -> (res: Result<(usize, usize), PhalanxError>)
    ensures
        match embedding_dims(dims@, embedding_length, vocab_size) {
            Ok(p) => res == Ok::<(usize, usize), PhalanxError>(p),
            Err(f) => is_layers_fault(res, f),
        },
{
    let d = squeeze_matrix_dims(dims);
    if d.len() != 2 {
        let mut reason = "expected rank-2 [n_embd, n_vocab], got ".to_owned();
        reason.append(list_display(dims).as_str());
        return Err(embedding_shape_error(reason));
    }
    if d[0] > usize::MAX as u64 || d[1] > usize::MAX as u64 {
        let value = if d[0] > usize::MAX as u64 {
            d[0]
        } else {
            d[1]
        };
        let mut reason = "dimension ".to_owned();
        reason.append(decimal_string(value).as_str());
        reason.append(" does not fit usize");
        return Err(embedding_shape_error(reason));
    }
    let n_embd = d[0] as usize;
    let n_vocab = d[1] as usize;
    if d[0] != embedding_length as u64 {
        let mut reason = "tensor n_embd ".to_owned();
        reason.append(decimal_string(d[0]).as_str());
        reason.append(" != config.embedding_length ");
        reason.append(decimal_string(embedding_length as u64).as_str());
        return Err(embedding_config_error(reason));
    }
    if let Some(declared) = vocab_size {
        if declared as u64 != d[1] {
            let mut reason = "tensor n_vocab ".to_owned();
            reason.append(decimal_string(d[1]).as_str());
            reason.append(" != config.vocab_size ");
            reason.append(decimal_string(declared as u64).as_str());
            return Err(embedding_config_error(reason));
        }
    }
    Ok((n_embd, n_vocab))
}

/// Look up `token_embd.weight` and check it against the configuration:
/// the loading half of building a table from a weight set, before the
/// payload is materialised.
///
/// Fails with [`LayersError::MissingWeight`] when the tensor is absent,
/// passes on other lookup failures, and otherwise answers as
/// [`check_embedding_dims`] on the record's dimensions. On success returns
/// the payload view with `(n_vocab, n_embd)`.
pub fn resolve_embedding<'a>(weights: &'a WeightSet, config: &ModelConfig) -> (res: Result<(WeightTensor<'a>, usize, usize), PhalanxError>)
    ensures
        crate::gguf::file::tensor_index(weights.directory().tensors@, TOKEN_EMBD_WEIGHT@) is None ==> is_layers_fault(
            res,
            LayersFault::MissingWeight { name: TOKEN_EMBD_WEIGHT@ },
        ),
        res matches Ok((v, n_vocab, n_embd)) ==> v.info.name@ == TOKEN_EMBD_WEIGHT@ && embedding_dims(
            v.info.dimensions@,
            config.embedding_length,
            config.vocab_size,
        ) == Ok::<(usize, usize), LayersFault>((n_embd, n_vocab)),
        weights.owned_bytes() is Some ==> match crate::gguf::file::tensor_index(
            weights.directory().tensors@,
            TOKEN_EMBD_WEIGHT@,
        ) {
            Some(i) => match embedding_dims(
                weights.directory().tensors@[i].dimensions@,
                config.embedding_length,
                config.vocab_size,
            ) {
                Ok((e, v)) => res matches Ok((_, n_vocab, n_embd)) && n_vocab == v && n_embd == e,
                Err(f) => is_layers_fault(res, f),
            },
            None => true,
        },
{
    let view = match weights.tensor(TOKEN_EMBD_WEIGHT) {
        Ok(v) => v,
        Err(PhalanxError::Weights(WeightsError::TensorNotFound { .. })) => {
            return Err(layers_err(LayersError::MissingWeight { name: TOKEN_EMBD_WEIGHT }));
        },
        Err(other) => {
            return Err(other);
        },
    };
    proof {
        crate::search::lemma_first_index_spec(
            weights.directory().tensors@,
            |t: crate::gguf::TensorInfo| t.name@ == TOKEN_EMBD_WEIGHT@,
        );
    }
    match check_embedding_dims(view.info.dimensions.as_slice(), config.embedding_length, config.vocab_size) {
        Ok((n_embd, n_vocab)) => Ok((view, n_vocab, n_embd)),
        Err(e) => Err(e),
    }
}

impl<T> EmbeddingTable<T> {
    /// The table holds a well-formed `[vocab, embd]` matrix with both sizes
    /// positive.
    pub closed spec fn wf(&self) -> bool {
        &&& self.weight.wf()
        &&& self.weight.dims() == seq![self.vocab_size, self.embedding_length]
        &&& self.vocab_size > 0
        &&& self.embedding_length > 0
        &&& self.weight.data().len() == self.vocab_size * self.embedding_length
        &&& self.vocab_size * self.embedding_length <= usize::MAX
    }

    /// The row-major elements of the table.
    pub closed spec fn table(&self) -> Seq<T> {
        self.weight.data()
    }

    /// Number of rows.
    pub closed spec fn rows(&self) -> usize {
        self.vocab_size
    }

    /// Row width.
    pub closed spec fn width(&self) -> usize {
        self.embedding_length
    }

    /// Build from a row-major `[vocab, embd]` matrix.
    ///
    /// Fails with [`LayersError::InvalidWeightShape`] when the rank is not 2
    /// or a size is zero.
    pub fn from_tensor(weight: Tensor<T>) -> (res: Result<Self, PhalanxError>)
        requires
            weight.wf(),
        ensures
            weight.dims().len() == 2 && weight.dims()[0] > 0 && weight.dims()[1] > 0 ==> (res matches Ok(t)
                && t.wf() && t.table() == weight.data() && t.rows() == weight.dims()[0] && t.width()
                == weight.dims()[1]),
            !(weight.dims().len() == 2 && weight.dims()[0] > 0 && weight.dims()[1] > 0) ==> is_layers_fault(
                res,
                LayersFault::InvalidWeightShape { name: TOKEN_EMBD_WEIGHT@ },
            ),
    {
        let shape = weight.shape().as_slice();
        if shape.len() != 2 {
            let mut reason = "expected rank-2 [vocab, embd], got ".to_owned();
            reason.append(usize_list_display(shape).as_str());
            return Err(embedding_shape_error(reason));
        }
        let vocab_size = shape[0];
        let embedding_length = shape[1];
        if vocab_size == 0 || embedding_length == 0 {
            return Err(embedding_shape_error("vocab_size and embedding_length must be > 0".to_owned()));
        }
        proof {
            weight.lemma_wf();
            let d = weight.dims();
            assert(d =~= seq![vocab_size, embedding_length]);
            lemma_product_two(vocab_size, embedding_length);
            assert(d.take(2) =~= d);
        }
        Ok(EmbeddingTable { weight, vocab_size, embedding_length })
    }

    /// Vocabulary rows in the table.
    pub fn vocab_size(&self) -> (res: usize)
        ensures
            res == self.rows(),
    {
        self.vocab_size
    }

    /// Hidden size (`n_embd`).
    pub fn embedding_length(&self) -> (res: usize)
        ensures
            res == self.width(),
    {
        self.embedding_length
    }

    /// Borrow the `[vocab, embd]` weight matrix.
    pub fn weight(&self) -> (res: &Tensor<T>)
        ensures
            res.data() == self.table(),
            self.wf() ==> res.wf() && res.dims() == seq![self.rows(), self.width()],
    {
        &self.weight
    }
}

impl<T: Copy> EmbeddingTable<T> {
    fn row_start(&self, token_id: u32) -> (res: Result<usize, PhalanxError>)
        requires
            self.wf(),
        ensures
            token_id < self.rows() ==> (res matches Ok(s) && s == token_id * self.width() && s
                + self.width() <= self.table().len()),
            token_id >= self.rows() ==> is_layers_fault(
                res,
                LayersFault::TokenOutOfRange { id: token_id, vocab_size: self.rows() },
            ),
    {
        let id = token_id as usize;
        if id >= self.vocab_size {
            return Err(
                layers_err(LayersError::TokenOutOfRange { id: token_id, vocab_size: self.vocab_size }),
            );
        }
        proof {
            let v = self.vocab_size as int;
            let e = self.embedding_length as int;
            assert(id * e + e <= v * e) by (nonlinear_arith)
                requires
                    0 <= id < v,
                    e > 0,
            ;
        }
        Ok(id * self.embedding_length)
    }

    /// Gather one token: a `[embedding_length]` tensor holding its row.
    ///
    /// Fails with [`LayersError::TokenOutOfRange`] for ids past the table.
    pub fn forward_one(&self, token_id: u32) -> (res: Result<Tensor<T>, PhalanxError>)
        requires
            self.wf(),
        ensures
            token_id < self.rows() ==> (res matches Ok(t) && t.wf() && t.dims() == seq![self.width()]
                && t.data() == table_row(self.table(), self.width() as int, token_id as int)),
            token_id >= self.rows() ==> is_layers_fault(
                res,
                LayersFault::TokenOutOfRange { id: token_id, vocab_size: self.rows() },
            ),
    {
        let start = match self.row_start(token_id) {
            Ok(s) => s,
            Err(e) => {
                return Err(e);
            },
        };
        let data = self.weight.as_slice();
        let mut row: Vec<T> = Vec::new();
        let mut k: usize = 0;
        while k < self.embedding_length
            invariant
                self.wf(),
                data@ == self.table(),
                start + self.embedding_length <= data@.len(),
                k <= self.embedding_length,
                row@ == data@.subrange(start as int, start + k),
            decreases self.embedding_length - k,
        {
            proof {
                assert(data@.subrange(start as int, start + k + 1) =~= data@.subrange(start as int, start + k).push(data@[start + k]));
            }
            row.push(data[start + k]);
            k = k + 1;
        }
        let mut dims: Vec<usize> = Vec::new();
        dims.push(self.embedding_length);
        proof {
            assert(dims@ =~= seq![self.embedding_length]);
            lemma_product_one(self.embedding_length);
        }
        let shape = match Shape::new(dims) {
            Ok(s) => s,
            Err(e) => {
                return Err(e);
            },
        };
        Tensor::from_vec(row, shape)
    }

    /// Gather a sequence: a `[seq_len, embedding_length]` tensor whose row
    /// `s` is the table row of `token_ids[s]`.
    ///
    /// Fails with [`LayersError::TokenOutOfRange`] at the first id past the
    /// table.
    pub fn forward(&self, token_ids: &[u32]) -> (res: Result<Tensor<T>, PhalanxError>)
        requires
            self.wf(),
        ensures
            first_bad_id(token_ids@, self.rows() as int) matches Some(k) ==> is_layers_fault(
                res,
                LayersFault::TokenOutOfRange { id: token_ids@[k], vocab_size: self.rows() },
            ),
            first_bad_id(token_ids@, self.rows() as int) is None && token_ids@.len() * self.width()
                <= usize::MAX ==> (res matches Ok(t) && t.wf() && t.dims() == seq![
                token_ids@.len() as usize,
                self.width(),
            ] && t.data() == gathered(self.table(), self.width() as int, token_ids@)),
    {
        let ghost p = |id: u32| id >= self.vocab_size;
        let data = self.weight.as_slice();
        let embd = self.embedding_length;
        let ghost rows = token_ids@.map_values(|id: u32| table_row(self.table(), embd as int, id as int));
        let mut out: Vec<T> = Vec::new();
        let mut s: usize = 0;
        while s < token_ids.len()
            invariant
                self.wf(),
                data@ == self.table(),
                embd == self.width(),
                p == (|id: u32| id >= self.vocab_size),
                rows == token_ids@.map_values(|id: u32| table_row(self.table(), embd as int, id as int)),
                s <= token_ids@.len(),
                forall|j: int| 0 <= j < s ==> !p(#[trigger] token_ids@[j]),
                out@ == rows.take(s as int).flatten_alt(),
            decreases token_ids@.len() - s,
        {
            let start = match self.row_start(token_ids[s]) {
                Ok(st) => st,
                Err(e) => {
                    proof {
                        crate::search::lemma_first_index_is(token_ids@, p, s as int);
                    }
                    return Err(e);
                },
            };
            let ghost before = out@;
            let mut k: usize = 0;
            while k < embd
                invariant
                    self.wf(),
                    data@ == self.table(),
                    embd == self.width(),
                    start + embd <= data@.len(),
                    k <= embd,
                    out@ == before + data@.subrange(start as int, start + k),
                decreases embd - k,
            {
                proof {
                    assert(data@.subrange(start as int, start + k + 1) =~= data@.subrange(start as int, start + k).push(data@[start + k]));
                    assert(before + data@.subrange(start as int, start + k + 1) =~= (before + data@.subrange(start as int, start + k)).push(data@[start + k]));
                }
                out.push(data[start + k]);
                k = k + 1;
            }
            proof {
                assert(rows.take(s + 1) =~= rows.take(s as int).push(rows[s as int]));
                assert(rows[s as int] == table_row(self.table(), embd as int, token_ids@[s as int] as int));
                assert(rows.take(s + 1).drop_last() =~= rows.take(s as int));
            }
            s = s + 1;
        }
        proof {
            crate::search::lemma_first_index_none(token_ids@, p);
            assert(rows.take(s as int) =~= rows);
        }
        let n = token_ids.len();
        let total = out.len();
        proof {
            assert forall|i: int| 0 <= i < rows.len() implies (#[trigger] rows[i]).len() == embd by {
                let id = token_ids@[i] as int;
                assert(!p(token_ids@[i]));
                let v = self.vocab_size as int;
                let e = embd as int;
                assert(id * e + e <= v * e) by (nonlinear_arith)
                    requires
                        0 <= id < v,
                        e > 0,
                ;
                assert(id * e >= 0) by (nonlinear_arith)
                    requires
                        0 <= id,
                        e > 0,
                ;
            }
            lemma_flat_rows_len(rows, embd as int);
            assert(total == n * embd);
        }
        let mut dims: Vec<usize> = Vec::new();
        dims.push(n);
        dims.push(embd);
        proof {
            assert(dims@ =~= seq![n, embd]);
            lemma_product_two(n, embd);
        }
        let shape = match Shape::new(dims) {
            Ok(sh) => sh,
            Err(e) => {
                return Err(e);
            },
        };
        Tensor::from_vec(out, shape)
    }
}

/// Rows of equal width flatten to `count * width` elements.
proof fn lemma_flat_rows_len<T>(rows: Seq<Seq<T>>, width: int)
    requires
        forall|i: int| 0 <= i < rows.len() ==> (#[trigger] rows[i]).len() == width,
    ensures
        rows.flatten_alt().len() == rows.len() * width,
    decreases rows.len(),
{
    if rows.len() > 0 {
        lemma_flat_rows_len(rows.drop_last(), width);
        assert((rows.len() - 1) * width + width == rows.len() * width) by (nonlinear_arith);
    }
}

} // verus!
