//! Loaded GGUF weights: the parsed directory plus the file's bytes.
//!
//! Every tensor's payload span is validated when the set is built, so a set
//! built from owned bytes resolves every tensor it lists.

use vstd::prelude::*;

use super::error::{WeightsError, WeightsFault};
use super::quant::{payload_bytes, quant_layout, QuantMeta};
use super::storage::WeightStorage;
use super::tensor::WeightTensor;
use crate::errors::PhalanxError;
use crate::gguf::file::spec_parse_gguf;
use crate::gguf::tensor_info::{checked_product, lemma_checked_product};
use crate::gguf::tensor_info::TensorInfoModel;
use crate::gguf::{GgufError, GgufFault, GgufFile, GgufModel, TensorInfo};
use crate::search::first_index;
use crate::text::decimal_string;

verus! {

/// Where a tensor's payload lies in the file, or why it cannot be used.
pub enum SpanOutcome {
    /// Absolute `[start, end)` byte range inside the file.
    Span(u64, u64),
    /// The record fails a layout or bounds check.
    Weights(WeightsFault),
    /// `data_offset + offset` overflows `u64`.
    OffsetOverflow,
}

/// Payload span of the tensor record `t` in a file of `file_len` bytes
/// whose data section starts at `data_offset`: the checks of
/// `WeightSet::tensor`, in order.
pub open spec fn span_of(t: TensorInfoModel, data_offset: u64, file_len: int) -> SpanOutcome {
    let name = t.name;
    let ty = t.ggml_type;
    match quant_layout(ty) {
        None => SpanOutcome::Weights(WeightsFault::UnsupportedType { name, ggml_type: ty }),
        Some((block, size, _)) => match checked_product(t.dimensions) {
            None => SpanOutcome::Weights(WeightsFault::InvalidElementCount { name }),
            Some(numel) => if numel == 0 {
                SpanOutcome::Weights(WeightsFault::InvalidElementCount { name })
            } else if numel % block != 0 {
                SpanOutcome::Weights(
                    WeightsFault::MisalignedElements { name, numel, block_size: block, ggml_type: ty },
                )
            } else if payload_bytes(numel, block, size) > u64::MAX {
                SpanOutcome::Weights(WeightsFault::InvalidElementCount { name })
            } else if data_offset + t.offset > u64::MAX {
                SpanOutcome::OffsetOverflow
            } else {
                let start = data_offset + t.offset;
                let end = start + payload_bytes(numel, block, size);
                if end > u64::MAX {
                    SpanOutcome::Weights(
                        WeightsFault::OutOfBounds {
                            name,
                            start: start as u64,
                            end: u64::MAX,
                            file_len: file_len as u64,
                            ggml_type: ty,
                        },
                    )
                } else if end > file_len {
                    SpanOutcome::Weights(
                        WeightsFault::OutOfBounds {
                            name,
                            start: start as u64,
                            end: end as u64,
                            file_len: file_len as u64,
                            ggml_type: ty,
                        },
                    )
                } else {
                    SpanOutcome::Span(start as u64, end as u64)
                }
            },
        },
    }
}

/// Payload span of `info`: [`span_of`] its record.
pub open spec fn payload_span(info: TensorInfo, data_offset: u64, file_len: int) -> SpanOutcome {
    span_of(info@, data_offset, file_len)
}

/// `e` is the error a failed span check reports.
pub open spec fn span_error(outcome: SpanOutcome, e: PhalanxError) -> bool {
    match outcome {
        SpanOutcome::Span(_, _) => false,
        SpanOutcome::Weights(f) => e matches PhalanxError::Weights(w) && w@ == f,
        SpanOutcome::OffsetOverflow => e matches PhalanxError::Gguf(g) && g@
            == (GgufFault::Invalid { context: "tensor absolute offset"@ }),
    }
}

/// The record's span check fails.
pub open spec fn span_fails(data_offset: u64, file_len: int) -> spec_fn(TensorInfoModel) -> bool {
    |t: TensorInfoModel| !(span_of(t, data_offset, file_len) is Span)
}

/// Index of the first tensor of the container `m` whose payload span does
/// not fit a file of `file_len` bytes.
pub open spec fn first_bad_span(m: GgufModel, file_len: int) -> Option<int> {
    first_index(m.tensors, span_fails(m.data_offset, file_len))
}

/// What loading a weight set over `bytes`, whose container is `m`, answers:
/// the error of the first tensor whose span fails, else success.
pub open spec fn load_answer(m: GgufModel, bytes: Seq<u8>, res: Result<(), PhalanxError>) -> bool {
    match first_bad_span(m, bytes.len() as int) {
        None => res is Ok,
        Some(i) => res matches Err(e) && span_error(span_of(m.tensors[i], m.data_offset, bytes.len() as int), e),
    }
}

/// `res` is what resolving `info` against `bytes` answers.
pub open spec fn span_answer<'a>(
    info: &'a TensorInfo,
    data_offset: u64,
    bytes: Seq<u8>,
    res: Result<WeightTensor<'a>, PhalanxError>,
) -> bool {
    match payload_span(*info, data_offset, bytes.len() as int) {
        SpanOutcome::Span(start, end) => match res {
            Ok(v) => {
                &&& v.info == info
                &&& v.absolute_offset == start
                &&& v.data@ == bytes.subrange(start as int, end as int)
                &&& quant_layout(info.ggml_type) matches Some((b, t, q))
                &&& v.quant == (QuantMeta {
                    ggml_type: info.ggml_type,
                    block_size: b,
                    type_size: t,
                    is_quantized: q,
                })
            },
            Err(_) => false,
        },
        SpanOutcome::Weights(f) => res matches Err(PhalanxError::Weights(e)) && e@ == f,
        SpanOutcome::OffsetOverflow => res matches Err(PhalanxError::Gguf(g)) && g@
            == (GgufFault::Invalid { context: "tensor absolute offset"@ }),
    }
}

/// Every tensor of the directory has a payload span inside `bytes`.
pub open spec fn all_spans_inside(gguf: GgufFile, bytes: Seq<u8>) -> bool {
    forall|i: int|
        0 <= i < gguf.tensors@.len() ==> #[trigger] payload_span(
            gguf.tensors@[i],
            gguf.data_offset,
            bytes.len() as int,
        ) is Span
}

/// Layout of `info`'s type, with the tensor's name in the error.
fn quant_for_tensor(info: &TensorInfo) -> (res: Result<QuantMeta, PhalanxError>)
    ensures
        match quant_layout(info.ggml_type) {
            Some((b, t, q)) => res == Ok::<QuantMeta, PhalanxError>(
                QuantMeta { ggml_type: info.ggml_type, block_size: b, type_size: t, is_quantized: q },
            ),
            None => res matches Err(PhalanxError::Weights(e)) && e@ == (
            WeightsFault::UnsupportedType { name: info.name@, ggml_type: info.ggml_type }),
        },
{
    match QuantMeta::for_type(info.ggml_type) {
        Ok(q) => Ok(q),
        Err(WeightsError::UnsupportedType { ggml_type, .. }) => Err(
            PhalanxError::Weights(
                WeightsError::UnsupportedType { name: info.name.clone(), ggml_type },
            ),
        ),
        Err(other) => Err(PhalanxError::Weights(other)),
    }
}

fn out_of_bounds(info: &TensorInfo, start: u64, end: u64, file_len: u64) -> (e: PhalanxError)
    ensures
        e matches PhalanxError::Weights(w) && w@ == (WeightsFault::OutOfBounds {
            name: info.name@,
            start,
            end,
            file_len,
            ggml_type: info.ggml_type,
        }),
{
    PhalanxError::Weights(
        WeightsError::OutOfBounds {
            name: info.name.clone(),
            start,
            end,
            file_len,
            ggml_type: info.ggml_type,
        },
    )
}

/// Resolve `info` against the file `bytes` whose directory is `gguf`.
fn resolve<'a>(gguf: &GgufFile, bytes: &'a [u8], info: &'a TensorInfo) -> (res: Result<
    WeightTensor<'a>,
    PhalanxError,
>)
    ensures
        span_answer(info, gguf.data_offset, bytes@, res),
{
    let quant = match quant_for_tensor(info) {
        Ok(q) => q,
        Err(e) => {
            return Err(e);
        },
    };
    let numel = match info.numel() {
        Some(n) => n,
        None => {
            return Err(
                PhalanxError::Weights(WeightsError::InvalidElementCount { name: info.name.clone() }),
            );
        },
    };
    if numel == 0 {
        return Err(
            PhalanxError::Weights(WeightsError::InvalidElementCount { name: info.name.clone() }),
        );
    }
    let nbytes = match quant.nbytes(numel, info.name.as_str()) {
        Ok(n) => n,
        Err(e) => {
            return Err(PhalanxError::Weights(e));
        },
    };
    let start = match gguf.absolute_offset(info) {
        Ok(s) => s,
        Err(e) => {
            return Err(e);
        },
    };
    let file_len = bytes.len() as u64;
    let end = match start.checked_add(nbytes) {
        Some(e) => e,
        None => {
            return Err(out_of_bounds(info, start, u64::MAX, file_len));
        },
    };
    if end > file_len {
        return Err(out_of_bounds(info, start, end, file_len));
    }
    let start_usize = start as usize;
    let end_usize = end as usize;
    let data = slice_range(bytes, start_usize, end_usize);
    Ok(WeightTensor { info, quant, absolute_offset: start, data })
}

/// `bytes[start..end]`.
fn slice_range<'a>(bytes: &'a [u8], start: usize, end: usize) -> (res: &'a [u8])
    requires
        start <= end <= bytes@.len(),
    ensures
        res@ == bytes@.subrange(start as int, end as int),
{
    vstd::slice::slice_subrange(bytes, start, end)
}

/// Resolve every tensor of `gguf` against `bytes`; `Ok` exactly when all of
/// their spans lie inside the file.
fn validate_all_tensors(gguf: &GgufFile, bytes: &[u8]) -> (res: Result<(), PhalanxError>)
    ensures
        res is Ok <==> all_spans_inside(*gguf, bytes@),
        load_answer(gguf@, bytes@, res),
{
    let ghost p = span_fails(gguf.data_offset, bytes@.len() as int);
    let ghost ts = gguf@.tensors;
    assert forall|j: int| 0 <= j < ts.len() implies #[trigger] ts[j] == gguf.tensors@[j]@ by {}
    let mut i: usize = 0;
    while i < gguf.tensors.len()
        invariant
            i <= gguf.tensors@.len(),
            p == span_fails(gguf.data_offset, bytes@.len() as int),
            ts == gguf@.tensors,
            forall|j: int|
                0 <= j < i ==> #[trigger] payload_span(
                    gguf.tensors@[j],
                    gguf.data_offset,
                    bytes@.len() as int,
                ) is Span,
        decreases gguf.tensors@.len() - i,
    {
        match resolve(gguf, bytes, &gguf.tensors[i]) {
            Ok(_) => {},
            Err(e) => {
                assert(span_answer(&gguf.tensors@[i as int], gguf.data_offset, bytes@, Err(e)));
                proof {
                    assert forall|j: int| 0 <= j < i implies !p(#[trigger] ts[j]) by {
                        assert(ts[j] == gguf.tensors@[j]@);
                        assert(payload_span(gguf.tensors@[j], gguf.data_offset, bytes@.len() as int) is Span);
                    }
                    assert(ts[i as int] == gguf.tensors@[i as int]@);
                    crate::search::lemma_first_index_is(ts, p, i as int);
                }
                return Err(e);
            },
        }
        i = i + 1;
    }
    proof {
        assert forall|j: int| 0 <= j < ts.len() implies !p(#[trigger] ts[j]) by {
            assert(ts[j] == gguf.tensors@[j]@);
            assert(payload_span(gguf.tensors@[j], gguf.data_offset, bytes@.len() as int) is Span);
        }
        crate::search::lemma_first_index_none(ts, p);
    }
    Ok(())
}

/// A GGUF model file with accessible weight payloads.
#[derive(Debug)]
pub struct WeightSet {
    gguf: GgufFile,
    storage: WeightStorage,
}

impl WeightSet {
    /// A set over owned bytes holds the container parsed from them, and every
    /// tensor's payload lies inside them.
    #[verifier::type_invariant]
    spec fn inv(self) -> bool {
        self.storage matches WeightStorage::Owned(b) ==> {
            &&& spec_parse_gguf(b@) == Ok::<crate::gguf::GgufModel, GgufFault>(self.gguf@)
            &&& all_spans_inside(self.gguf, b@)
        }
    }

    /// The parsed directory.
    pub closed spec fn directory(&self) -> GgufFile {
        self.gguf
    }

    /// The owned bytes, when the set is not a file mapping.
    pub closed spec fn owned_bytes(&self) -> Option<Seq<u8>> {
        match self.storage {
            WeightStorage::Owned(b) => Some(b@),
            WeightStorage::Mapped(_) => None,
        }
    }

    /// Parse the directory of `storage` and validate every tensor's span.
    ///
    /// Fails with the parse error of the bytes, or with the first tensor
    /// whose span is invalid (as [`WeightSet::tensor`] would report it).
    pub fn from_storage(storage: WeightStorage) -> (res: Result<Self, PhalanxError>)
        requires
            storage matches WeightStorage::Owned(b) ==> b@.len() <= i64::MAX,
        ensures
            storage matches WeightStorage::Owned(b) ==> match spec_parse_gguf(b@) {
                Err(g) => res matches Err(PhalanxError::Gguf(e)) && e@ == g,
                Ok(m) => match first_bad_span(m, b@.len() as int) {
                    None => res matches Ok(ws) && ws.directory()@ == m && all_spans_inside(
                        ws.directory(),
                        b@,
                    ) && ws.owned_bytes() == Some(b@),
                    Some(i) => res matches Err(e) && span_error(
                        span_of(m.tensors[i], m.data_offset, b@.len() as int),
                        e,
                    ),
                },
            },
            res matches Ok(ws) ==> (ws.owned_bytes() is Some <==> storage is Owned),
            storage is Mapped ==> (res matches Ok(ws) ==> exists|b: Seq<u8>|
                #![trigger spec_parse_gguf(b)]
                b.len() <= isize::MAX && spec_parse_gguf(b) == Ok::<crate::gguf::GgufModel, GgufFault>(
                    ws.directory()@,
                ) && all_spans_inside(ws.directory(), b)),
    {
        let bytes = storage.as_slice();
        let gguf = match GgufFile::from_bytes(bytes) {
            Ok(g) => g,
            Err(e) => {
                return Err(e);
            },
        };
        match validate_all_tensors(&gguf, bytes) {
            Ok(()) => {},
            Err(e) => {
                return Err(e);
            },
        }
        assert(spec_parse_gguf(bytes@) == Ok::<crate::gguf::GgufModel, GgufFault>(gguf@));
        Ok(WeightSet { gguf, storage })
    }

    /// Parse an in-memory GGUF buffer; as [`WeightSet::from_storage`] on the
    /// owned bytes.
    pub fn from_bytes(bytes: Vec<u8>) -> (res: Result<Self, PhalanxError>)
        requires
            bytes@.len() <= i64::MAX,
        ensures
            match spec_parse_gguf(bytes@) {
                Err(g) => res matches Err(PhalanxError::Gguf(e)) && e@ == g,
                Ok(m) => match first_bad_span(m, bytes@.len() as int) {
                    None => res matches Ok(ws) && ws.directory()@ == m && all_spans_inside(
                        ws.directory(),
                        bytes@,
                    ) && ws.owned_bytes() == Some(bytes@),
                    Some(i) => res matches Err(e) && span_error(
                        span_of(m.tensors[i], m.data_offset, bytes@.len() as int),
                        e,
                    ),
                },
            },
    {
        let ghost b = bytes@;
        Self::from_storage(WeightStorage::owned(bytes))
    }

    /// Borrow the parsed GGUF directory / metadata.
    pub fn gguf(&self) -> (res: &GgufFile)
        ensures
            *res == self.directory(),
    {
        &self.gguf
    }

    /// `true` when weights are OS-mapped rather than copied.
    pub fn is_mapped(&self) -> (res: bool)
        ensures
            res == (self.owned_bytes() is None),
    {
        self.storage.is_mapped()
    }

    /// Byte length of the backing file / buffer.
    pub fn file_len(&self) -> (res: usize)
        ensures
            self.owned_bytes() matches Some(b) ==> res == b.len(),
    {
        self.storage.len()
    }

    /// Resolve a tensor by name to a borrowed payload view.
    ///
    /// Fails with [`WeightsError::TensorNotFound`] when the directory has no
    /// such tensor; otherwise answers as the span checks of the record say.
    pub fn tensor(&self, name: &str) -> (res: Result<WeightTensor<'_>, PhalanxError>)
        ensures
            crate::gguf::file::tensor_index(self.directory().tensors@, name@) is None ==> (res matches Err(
                PhalanxError::Weights(e),
            ) && e@ == (WeightsFault::TensorNotFound { name: name@ })),
            crate::gguf::file::tensor_index(self.directory().tensors@, name@) matches Some(i) ==> {
                &&& self.owned_bytes() matches Some(b) ==> res matches Ok(v) && span_answer(
                    &self.directory().tensors@[i],
                    self.directory().data_offset,
                    b,
                    res,
                )
                &&& exists|b: Seq<u8>|
                    span_answer(
                        &self.directory().tensors@[i],
                        self.directory().data_offset,
                        b,
                        res,
                    )
            },
    {
        proof {
            use_type_invariant(self);
        }
        match self.gguf.tensor(name) {
            Some(info) => {
                let bytes = self.storage.as_slice();
                let ghost i = crate::gguf::file::tensor_index(self.gguf.tensors@, name@)->Some_0;
                proof {
                    crate::search::lemma_first_index_spec(
                        self.gguf.tensors@,
                        |t: TensorInfo| t.name@ == name@,
                    );
                    if self.storage is Owned {
                        assert(payload_span(
                            self.gguf.tensors@[i],
                            self.gguf.data_offset,
                            bytes@.len() as int,
                        ) is Span);
                    }
                }
                let res = resolve(&self.gguf, bytes, info);
                assert(span_answer(&self.gguf.tensors@[i], self.gguf.data_offset, bytes@, res));
                res
            },
            None => Err(
                PhalanxError::Weights(WeightsError::TensorNotFound { name: name.to_owned() }),
            ),
        }
    }

    /// All tensors as payload views, in directory order.
    ///
    /// For a set over owned bytes this never fails: every span was checked
    /// when the set was built.
    pub fn tensors(&self) -> (res: Result<Vec<WeightTensor<'_>>, PhalanxError>)
        ensures
            self.owned_bytes() is Some ==> res is Ok,
            res matches Ok(vs) ==> vs@.len() == self.directory().tensors@.len() && forall|i: int|
                0 <= i < vs@.len() ==> (#[trigger] vs@[i]).info == &self.directory().tensors@[i],
            self.owned_bytes() matches Some(b) ==> (res matches Ok(vs) && forall|i: int|
                0 <= i < vs@.len() ==> span_answer(
                    &self.directory().tensors@[i],
                    self.directory().data_offset,
                    b,
                    Ok(#[trigger] vs@[i]),
                )),
    {
        proof {
            use_type_invariant(self);
        }
        let bytes = self.storage.as_slice();
        let mut out: Vec<WeightTensor<'_>> = Vec::new();
        let mut i: usize = 0;
        while i < self.gguf.tensors.len()
            invariant
                i <= self.gguf.tensors@.len(),
                out@.len() == i,
                self.storage matches WeightStorage::Owned(b) ==> bytes@ == b@ && all_spans_inside(
                    self.gguf,
                    b@,
                ),
                forall|j: int|
                    0 <= j < i ==> (#[trigger] out@[j]).info == &self.gguf.tensors@[j]
                        && span_answer(&self.gguf.tensors@[j], self.gguf.data_offset, bytes@, Ok(out@[j])),
            decreases self.gguf.tensors@.len() - i,
        {
            match resolve(&self.gguf, bytes, &self.gguf.tensors[i]) {
                Ok(v) => {
                    out.push(v);
                },
                Err(e) => {
                    proof {
                        if self.storage is Owned {
                            assert(payload_span(
                                self.gguf.tensors@[i as int],
                                self.gguf.data_offset,
                                bytes@.len() as int,
                            ) is Span);
                        }
                    }
                    return Err(e);
                },
            }
            i = i + 1;
        }
        Ok(out)
    }
}

} // verus!
