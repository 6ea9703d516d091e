//! Top-level GGUF container parse (header + metadata + tensor directory).
//!
//! The parser works on an in-memory byte buffer; everything up to the
//! aligned start of the tensor-data blob is decoded, the blob itself is not.

use vstd::prelude::*;
use vstd::string::StringExecFns;
use vstd::utf8::is_ascii_chars;

use super::error::{GgufError, GgufFault};
use super::limits;
use super::reader::{
    GgufReader, read_agrees, read_string_at, read_u32_at, read_u64_at, read_value_at,
    read_value_type_at, take_bytes,
};
use super::tensor_info::{TensorInfo, TensorInfoModel};
use super::types::{
    align_offset, ggml_type_from_tag, lemma_align_offset_bounds, spec_align_offset, GgmlType,
    ALIGNMENT_KEY, ARCHITECTURE_KEY, DEFAULT_ALIGNMENT, GGUF_MAGIC, GGUF_VERSION_V2, GGUF_VERSION_V3,
    NAME_KEY, SUPPORTED_VERSIONS,
};
use super::value::{MetaValue, MetadataEntry, MetadataValue};
use crate::errors::PhalanxError;
use crate::search::{first_index, lemma_first_index_is, lemma_first_index_none};
use crate::text::{decimal_string, str_debug, str_eq};

verus! {

// ---------------------------------------------------------------------------
// Container model
// ---------------------------------------------------------------------------

/// Fixed fields from the start of a GGUF file (before KV pairs).
#[derive(Debug, Clone, Copy, PartialEq, Eq, Structural)]
pub struct GgufHeader {
    /// Format version (`2` or `3` accepted).
    pub version: u32,
    /// Number of tensor info records that follow metadata.
    pub tensor_count: u64,
    /// Number of metadata key-value pairs.
    pub metadata_kv_count: u64,
}

/// Parsed GGUF container **without** weight payloads.
#[derive(Debug, PartialEq)]
pub struct GgufFile {
    /// Magic-validated header counts / version.
    pub header: GgufHeader,
    /// Metadata entries in file order.
    pub metadata: Vec<MetadataEntry>,
    /// Tensor directory in file order.
    pub tensors: Vec<TensorInfo>,
    /// Alignment used for the data section (from metadata or default 32).
    pub alignment: u64,
    /// Absolute file offset where the `tensor_data` blob begins.
    pub data_offset: u64,
}

/// Model of a parsed container.
#[verifier::ext_equal]
pub struct GgufModel {
    pub header: GgufHeader,
    pub metadata: Seq<(Seq<char>, MetaValue)>,
    pub tensors: Seq<TensorInfoModel>,
    pub alignment: u64,
    pub data_offset: u64,
}

/// Model of one metadata entry.
pub open spec fn entry_view(e: MetadataEntry) -> (Seq<char>, MetaValue) {
    (e.key@, e.value.view_value())
}

/// Model of one tensor record.
pub open spec fn tensor_view(t: TensorInfo) -> TensorInfoModel {
    t@
}

impl View for GgufFile {
    type V = GgufModel;

    open spec fn view(&self) -> GgufModel {
        GgufModel {
            header: self.header,
            metadata: self.metadata@.map_values(|e: MetadataEntry| entry_view(e)),
            tensors: self.tensors@.map_values(|t: TensorInfo| tensor_view(t)),
            alignment: self.alignment,
            data_offset: self.data_offset,
        }
    }
}

// ---------------------------------------------------------------------------
// Wire model of the container
// ---------------------------------------------------------------------------

/// `n` consecutive items, each decoded by `step` from where the previous ended.
pub open spec fn repeat_at<A>(
    pos: int,
    n: nat,
    step: spec_fn(int) -> Result<(A, int), GgufFault>,
) -> Result<(Seq<A>, int), GgufFault>
    decreases n,
{
    if n == 0 {
        Ok((Seq::empty(), pos))
    } else {
        match repeat_at(pos, (n - 1) as nat, step) {
            Err(e) => Err(e),
            Ok((xs, p)) => match step(p) {
                Err(e) => Err(e),
                Ok((x, p2)) => Ok((xs.push(x), p2)),
            },
        }
    }
}

/// Once the item after the first `i` fails, every longer repetition fails
/// with the same error.
pub proof fn lemma_repeat_error<A>(
    pos: int,
    i: nat,
    n: nat,
    step: spec_fn(int) -> Result<(A, int), GgufFault>,
    e: GgufFault,
)
    requires
        i < n,
        repeat_at(pos, i, step) is Ok,
        step(repeat_at(pos, i, step)->Ok_0.1) == Err::<(A, int), GgufFault>(e),
    ensures
        repeat_at(pos, n, step) == Err::<(Seq<A>, int), GgufFault>(e),
    decreases n,
{
    if n > i + 1 {
        lemma_repeat_error(pos, i, (n - 1) as nat, step, e);
    }
}

/// A repetition that succeeds yields exactly `n` items.
pub proof fn lemma_repeat_len<A>(pos: int, n: nat, step: spec_fn(int) -> Result<(A, int), GgufFault>)
    ensures
        repeat_at(pos, n, step) matches Ok((xs, _)) ==> xs.len() == n,
    decreases n,
{
    if n > 0 {
        lemma_repeat_len(pos, (n - 1) as nat, step);
    }
}

/// Every tensor record a repetition decodes has an aligned offset.
pub proof fn lemma_repeat_tensors_aligned(s: Seq<u8>, alignment: u64, pos: int, n: nat)
    requires
        alignment > 0,
    ensures
        repeat_at(pos, n, tensor_step(s, alignment)) matches Ok((ts, _)) ==> forall|i: int|
            0 <= i < ts.len() ==> (#[trigger] ts[i]).offset % alignment == 0,
    decreases n,
{
    if n > 0 {
        lemma_repeat_tensors_aligned(s, alignment, pos, (n - 1) as nat);
        if let Ok((ts, _)) = repeat_at(pos, n, tensor_step(s, alignment)) {
            let (prev, p) = repeat_at(pos, (n - 1) as nat, tensor_step(s, alignment))->Ok_0;
            let (x, _) = read_tensor_info_at(s, p, alignment)->Ok_0;
            assert(ts == prev.push(x));
            assert forall|i: int| 0 <= i < ts.len() implies (#[trigger] ts[i]).offset % alignment == 0 by {
                if i < prev.len() {
                    assert(ts[i] == prev[i]);
                }
            }
        }
    }
}

/// A declared alignment is a non-zero multiple of 8.
pub proof fn lemma_alignment_of(entries: Seq<(Seq<char>, MetaValue)>)
    ensures
        alignment_of(entries) matches Ok(a) ==> a > 0 && a % 8 == 0,
{
}

/// Layout facts of a parsed container: a non-zero alignment that is a
/// multiple of 8, a data section and tensor offsets on that alignment, and
/// as many entries and records as the header declares.
pub open spec fn layout_ok(m: GgufModel) -> bool {
    &&& m.alignment > 0
    &&& m.alignment % 8 == 0
    &&& m.data_offset % m.alignment == 0
    &&& m.metadata.len() == m.header.metadata_kv_count
    &&& m.tensors.len() == m.header.tensor_count
    &&& forall|i: int| 0 <= i < m.tensors.len() ==> (#[trigger] m.tensors[i]).offset % m.alignment == 0
}

/// In a container with aligned layout, each tensor's absolute payload
/// offset `data_offset + offset` is itself aligned.
pub proof fn lemma_absolute_offsets_aligned(m: GgufModel, i: int)
    requires
        layout_ok(m),
        0 <= i < m.tensors.len(),
    ensures
        (m.data_offset + m.tensors[i].offset) % (m.alignment as int) == 0,
{
    let a = m.alignment as int;
    let x = m.data_offset as int;
    let y = m.tensors[i].offset as int;
    assert(x % a == 0);
    assert(y % a == 0);
    vstd::arithmetic::div_mod::lemma_add_mod_noop(x, y, a);
    vstd::arithmetic::div_mod::lemma_small_mod(0nat, a as nat);
}

/// One metadata entry: key, type tag, value.
pub open spec fn read_entry_at(s: Seq<u8>, pos: int) -> Result<((Seq<char>, MetaValue), int), GgufFault> {
    match read_string_at(s, pos, "metadata key"@, limits::MAX_KEY_LEN) {
        Err(e) => Err(e),
        Ok((key, p1)) => if key.len() == 0 || !is_ascii_chars(key) {
            Err(GgufFault::Invalid { context: "metadata key"@ })
        } else {
            match read_value_type_at(s, p1, "metadata value type"@) {
                Err(e) => Err(e),
                Ok((ty, p2)) => match read_value_at(s, p2, ty, 0) {
                    Err(e) => Err(e),
                    Ok((v, p3)) => Ok(((key, v), p3)),
                },
            }
        },
    }
}

/// Data alignment declared by the metadata: the first `general.alignment`
/// entry, which must be a `u32` / `u64` non-zero multiple of 8; 32 if absent.
pub open spec fn alignment_of(entries: Seq<(Seq<char>, MetaValue)>) -> Result<u64, GgufFault> {
    match first_index(entries, |e: (Seq<char>, MetaValue)| e.0 == ALIGNMENT_KEY@) {
        None => Ok(DEFAULT_ALIGNMENT),
        Some(i) => {
            let a: Option<u64> = match entries[i].1 {
                MetaValue::U32(v) => Some(v as u64),
                MetaValue::U64(v) => Some(v),
                _ => None,
            };
            match a {
                Some(a) => if a == 0 || a % 8 != 0 {
                    Err(GgufFault::Invalid { context: ALIGNMENT_KEY@ })
                } else {
                    Ok(a)
                },
                None => Err(GgufFault::Invalid { context: ALIGNMENT_KEY@ }),
            }
        },
    }
}

/// One tensor record: name, dimensions, type tag, aligned relative offset.
pub open spec fn read_tensor_info_at(s: Seq<u8>, pos: int, alignment: u64) -> Result<
    (TensorInfoModel, int),
    GgufFault,
> {
    match read_string_at(s, pos, "tensor name"@, limits::MAX_TENSOR_NAME_LEN) {
        Err(e) => Err(e),
        Ok((name, p1)) => if name.len() == 0 {
            Err(GgufFault::Invalid { context: "tensor name"@ })
        } else {
            match read_u32_at(s, p1, "tensor n_dimensions"@) {
                Err(e) => Err(e),
                Ok((n, p2)) => if n == 0 || n > limits::MAX_DIMENSIONS {
                    Err(GgufFault::Invalid { context: "tensor n_dimensions"@ })
                } else {
                    match repeat_at(p2, n as nat, dim_step(s)) {
                        Err(e) => Err(e),
                        Ok((dims, p3)) => match read_u32_at(s, p3, "tensor ggml_type"@) {
                            Err(e) => Err(e),
                            Ok((tag, p4)) => match read_u64_at(s, p4, "tensor offset"@) {
                                Err(e) => Err(e),
                                Ok((offset, p5)) => if offset % alignment != 0 {
                                    Err(GgufFault::Invalid { context: "tensor offset"@ })
                                } else {
                                    Ok(
                                        (
                                            TensorInfoModel {
                                                name,
                                                dimensions: dims,
                                                ggml_type: ggml_type_from_tag(tag),
                                                offset,
                                            },
                                            p5,
                                        ),
                                    )
                                },
                            },
                        },
                    }
                },
            }
        },
    }
}

/// Step decoding one metadata entry of `s`.
pub open spec fn entry_step(s: Seq<u8>) -> spec_fn(int) -> Result<((Seq<char>, MetaValue), int), GgufFault> {
    |p: int| read_entry_at(s, p)
}

/// Step decoding one tensor dimension of `s`.
pub open spec fn dim_step(s: Seq<u8>) -> spec_fn(int) -> Result<(u64, int), GgufFault> {
    |p: int| read_u64_at(s, p, "tensor dimension"@)
}

/// Step decoding one tensor record of `s`.
pub open spec fn tensor_step(s: Seq<u8>, alignment: u64) -> spec_fn(int) -> Result<(TensorInfoModel, int), GgufFault> {
    |p: int| read_tensor_info_at(s, p, alignment)
}

/// The metadata and tensor sections after the fixed header (which ends at `pos`).
pub open spec fn parse_sections(s: Seq<u8>, pos: int, header: GgufHeader) -> Result<
    GgufModel,
    GgufFault,
> {
    match repeat_at(pos, header.metadata_kv_count as nat, entry_step(s)) {
        Err(e) => Err(e),
        Ok((metadata, p1)) => match alignment_of(metadata) {
            Err(e) => Err(e),
            Ok(alignment) => match repeat_at(p1, header.tensor_count as nat, tensor_step(s, alignment)) {
                Err(e) => Err(e),
                Ok((tensors, p2)) => Ok(
                    GgufModel {
                        header,
                        metadata,
                        tensors,
                        alignment,
                        data_offset: spec_align_offset(p2, alignment as int) as u64,
                    },
                ),
            },
        },
    }
}

/// The whole container: magic, version, counts, then the sections.
pub open spec fn spec_parse_gguf(s: Seq<u8>) -> Result<GgufModel, GgufFault> {
    match take_bytes(s, 0, 4, "magic"@) {
        Err(e) => Err(e),
        Ok((magic, p0)) => if magic != GGUF_MAGIC@ {
            Err(GgufFault::InvalidMagic { expected: GGUF_MAGIC@, got: magic })
        } else {
            match read_u32_at(s, p0, "version"@) {
                Err(e) => Err(e),
                Ok((version, p1)) => if version != 2 && version != 3 {
                    Err(GgufFault::UnsupportedVersion { version, supported: SUPPORTED_VERSIONS@ })
                } else {
                    match read_u64_at(s, p1, "tensor_count"@) {
                        Err(e) => Err(e),
                        Ok((tensor_count, p2)) => if tensor_count > limits::MAX_TENSOR_COUNT {
                            Err(
                                GgufFault::LimitExceeded {
                                    context: "tensor_count"@,
                                    got: tensor_count,
                                    limit: limits::MAX_TENSOR_COUNT,
                                },
                            )
                        } else {
                            match read_u64_at(s, p2, "metadata_kv_count"@) {
                                Err(e) => Err(e),
                                Ok((kv_count, p3)) => if kv_count > limits::MAX_METADATA_COUNT {
                                    Err(
                                        GgufFault::LimitExceeded {
                                            context: "metadata_kv_count"@,
                                            got: kv_count,
                                            limit: limits::MAX_METADATA_COUNT,
                                        },
                                    )
                                } else {
                                    parse_sections(
                                        s,
                                        p3,
                                        GgufHeader {
                                            version,
                                            tensor_count,
                                            metadata_kv_count: kv_count,
                                        },
                                    )
                                },
                            }
                        },
                    }
                },
            }
        },
    }
}

// ---------------------------------------------------------------------------
// Exec parser
// ---------------------------------------------------------------------------

/// Text made of the given pieces, in order.
fn join2(a: &str, b: &str) -> (res: String)
    ensures
        res@ == a@ + b@,
{
    let mut out = String::new();
    out.append(a);
    out.append(b);
    out
}

/// Keys must be non-empty ASCII.
fn validate_metadata_key(key: &str) -> (res: Result<(), GgufError>)
    ensures
        res is Ok <==> key@.len() > 0 && is_ascii_chars(key@),
        res matches Err(e) ==> e@ == (GgufFault::Invalid { context: "metadata key"@ }),
{
    if key.is_empty() {
        return Err(
            GgufError::Invalid {
                context: "metadata key",
                reason: "key must not be empty".to_owned(),
            },
        );
    }
    if !key.is_ascii() {
        return Err(
            GgufError::Invalid {
                context: "metadata key",
                reason: join2("key must be ASCII, got ", str_debug(key).as_str()),
            },
        );
    }
    Ok(())
}

fn read_metadata_entry(reader: &mut GgufReader) -> (res: Result<MetadataEntry, GgufError>)
    requires
        old(reader).wf(),
    ensures
        final(reader).data() == old(reader).data(),
        final(reader).wf(),
        match read_entry_at(old(reader).data(), old(reader).pos()) {
            Ok((v, p)) => res matches Ok(r) && entry_view(r) == v && final(reader).pos() == p,
            Err(f) => res matches Err(e) && e@ == f,
        },
{
    let key = match reader.read_string("metadata key", limits::MAX_KEY_LEN) {
        Ok(k) => k,
        Err(e) => return Err(e),
    };
    match validate_metadata_key(key.as_str()) {
        Ok(()) => {},
        Err(e) => return Err(e),
    }
    let value_type = match reader.read_value_type("metadata value type") {
        Ok(t) => t,
        Err(e) => return Err(e),
    };
    let value = match reader.read_value(value_type, 0) {
        Ok(v) => v,
        Err(e) => return Err(e),
    };
    Ok(MetadataEntry { key, value })
}

fn resolve_alignment(metadata: &Vec<MetadataEntry>) -> (res: Result<u64, GgufError>)
    ensures
        match alignment_of(metadata@.map_values(|e: MetadataEntry| entry_view(e))) {
            Ok(a) => res == Ok::<u64, GgufError>(a),
            Err(f) => res matches Err(e) && e@ == f,
        },
{
    let ghost entries = metadata@.map_values(|e: MetadataEntry| entry_view(e));
    let ghost p = |e: (Seq<char>, MetaValue)| e.0 == ALIGNMENT_KEY@;
    let mut i: usize = 0;
    while i < metadata.len()
        invariant
            i <= metadata@.len(),
            entries == metadata@.map_values(|e: MetadataEntry| entry_view(e)),
            p == (|e: (Seq<char>, MetaValue)| e.0 == ALIGNMENT_KEY@),
            forall|j: int| 0 <= j < i ==> !p(#[trigger] entries[j]),
        decreases metadata@.len() - i,
    {
        let entry = &metadata[i];
        if str_eq(entry.key.as_str(), ALIGNMENT_KEY) {
            proof {
                lemma_first_index_is(entries, p, i as int);
            }
            let alignment = match &entry.value {
                MetadataValue::U32(v) => *v as u64,
                MetadataValue::U64(v) => *v,
                other => {
                    let found = other.value_type();
                    return Err(
                        GgufError::Invalid {
                            context: ALIGNMENT_KEY,
                            reason: join2("expected u32/u64, got ", found.debug_name()),
                        },
                    );
                },
            };
            if alignment == 0 || alignment % 8 != 0 {
                return Err(
                    GgufError::Invalid {
                        context: ALIGNMENT_KEY,
                        reason: join2(
                            "alignment must be a non-zero multiple of 8, got ",
                            decimal_string(alignment).as_str(),
                        ),
                    },
                );
            }
            return Ok(alignment);
        }
        i = i + 1;
    }
    proof {
        lemma_first_index_none(entries, p);
    }
    Ok(DEFAULT_ALIGNMENT)
}

/// Text made of three pieces, in order.
fn join3(a: &str, b: &str, c: &str) -> (res: String)
    ensures
        res@ == a@ + b@ + c@,
{
    let mut out = String::new();
    out.append(a);
    out.append(b);
    out.append(c);
    out
}

#[verifier::loop_isolation(false)]
fn read_tensor_info(reader: &mut GgufReader, alignment: u64) -> (res: Result<TensorInfo, GgufError>)
    requires
        old(reader).wf(),
        alignment > 0,
    ensures
        final(reader).data() == old(reader).data(),
        final(reader).wf(),
        match read_tensor_info_at(old(reader).data(), old(reader).pos(), alignment) {
            Ok((v, p)) => res matches Ok(r) && r@ == v && final(reader).pos() == p,
            Err(f) => res matches Err(e) && e@ == f,
        },
{
    let name = match reader.read_string("tensor name", limits::MAX_TENSOR_NAME_LEN) {
        Ok(n) => n,
        Err(e) => return Err(e),
    };
    if name.as_str().is_empty() {
        return Err(
            GgufError::Invalid { context: "tensor name", reason: "name must not be empty".to_owned() },
        );
    }
    let n_dimensions = match reader.read_u32("tensor n_dimensions") {
        Ok(n) => n,
        Err(e) => return Err(e),
    };
    if n_dimensions == 0 || n_dimensions > limits::MAX_DIMENSIONS {
        return Err(
            GgufError::Invalid {
                context: "tensor n_dimensions",
                reason: join2("expected 1..=8, got ", decimal_string(n_dimensions as u64).as_str()),
            },
        );
    }
    let ghost data = reader.data();
    let ghost start = reader.pos();
    let mut dimensions: Vec<u64> = Vec::new();
    let mut k: u32 = 0;
    while k < n_dimensions
        invariant
            reader.wf(),
            reader.data() == data,
            k <= n_dimensions,
            repeat_at(start, k as nat, dim_step(data)) == Ok::<(Seq<u64>, int), GgufFault>(
                (dimensions@, reader.pos()),
            ),
        decreases n_dimensions - k,
    {
        match reader.read_u64("tensor dimension") {
            Ok(d) => {
                dimensions.push(d);
            },
            Err(e) => {
                proof {
                    lemma_repeat_error(start, k as nat, n_dimensions as nat, dim_step(data), e@);
                }
                return Err(e);
            },
        }
        k = k + 1;
    }
    let type_id = match reader.read_u32("tensor ggml_type") {
        Ok(t) => t,
        Err(e) => return Err(e),
    };
    let ggml_type = GgmlType::from_u32(type_id);
    let offset = match reader.read_u64("tensor offset") {
        Ok(o) => o,
        Err(e) => return Err(e),
    };
    if offset % alignment != 0 {
        let head = join3(
            "offset ",
            decimal_string(offset).as_str(),
            " is not a multiple of alignment ",
        );
        return Err(
            GgufError::Invalid {
                context: "tensor offset",
                reason: join2(head.as_str(), decimal_string(alignment).as_str()),
            },
        );
    }
    Ok(TensorInfo { name, dimensions, ggml_type, offset })
}

/// Metadata entries, then tensor records (with the alignment the metadata
/// declares), as [`parse_sections`] describes.
#[verifier::loop_isolation(false)]
fn read_sections(reader: &mut GgufReader, header: GgufHeader) -> (res: Result<GgufFile, GgufError>)
    requires
        old(reader).wf(),
        old(reader).data().len() <= i64::MAX,
    ensures
        match parse_sections(old(reader).data(), old(reader).pos(), header) {
            Ok(m) => res matches Ok(f) && f@ == m,
            Err(f) => res matches Err(e) && e@ == f,
        },
        res matches Ok(f) ==> layout_ok(f@),
{
    let metadata_kv_count = header.metadata_kv_count;
    let tensor_count = header.tensor_count;
    let ghost data = reader.data();
    let ghost meta_start = reader.pos();
    let mut metadata: Vec<MetadataEntry> = Vec::new();
    let mut i: u64 = 0;
    assert(metadata@.map_values(|e: MetadataEntry| entry_view(e)) =~= Seq::empty());
    while i < metadata_kv_count
        invariant
            reader.wf(),
            reader.data() == data,
            i <= metadata_kv_count,
            repeat_at(meta_start, i as nat, entry_step(data)) == Ok::<
                (Seq<(Seq<char>, MetaValue)>, int),
                GgufFault,
            >((metadata@.map_values(|e: MetadataEntry| entry_view(e)), reader.pos())),
        decreases metadata_kv_count - i,
    {
        match read_metadata_entry(reader) {
            Ok(entry) => {
                let ghost before = metadata@;
                metadata.push(entry);
                assert(metadata@.map_values(|e: MetadataEntry| entry_view(e)) =~= before.map_values(
                    |e: MetadataEntry| entry_view(e),
                ).push(entry_view(entry)));
            },
            Err(e) => {
                proof {
                    lemma_repeat_error(meta_start, i as nat, metadata_kv_count as nat, entry_step(data), e@);
                }
                return Err(e);
            },
        }
        i = i + 1;
    }

    let alignment = match resolve_alignment(&metadata) {
        Ok(a) => a,
        Err(e) => return Err(e),
    };

    let ghost tensor_start = reader.pos();
    let mut tensors: Vec<TensorInfo> = Vec::new();
    let mut t: u64 = 0;
    assert(tensors@.map_values(|x: TensorInfo| tensor_view(x)) =~= Seq::empty());
    while t < tensor_count
        invariant
            reader.wf(),
            reader.data() == data,
            t <= tensor_count,
            alignment > 0,
            repeat_at(tensor_start, t as nat, tensor_step(data, alignment)) == Ok::<
                (Seq<TensorInfoModel>, int),
                GgufFault,
            >((tensors@.map_values(|x: TensorInfo| tensor_view(x)), reader.pos())),
        decreases tensor_count - t,
    {
        match read_tensor_info(reader, alignment) {
            Ok(info) => {
                let ghost before = tensors@;
                tensors.push(info);
                assert(tensors@.map_values(|x: TensorInfo| tensor_view(x)) =~= before.map_values(
                    |x: TensorInfo| tensor_view(x),
                ).push(tensor_view(info)));
            },
            Err(e) => {
                proof {
                    lemma_repeat_error(tensor_start, t as nat, tensor_count as nat, tensor_step(data, alignment), e@);
                }
                return Err(e);
            },
        }
        t = t + 1;
    }

    let position = reader.position();
    proof {
        lemma_align_offset_bounds(position as int, alignment as int);
        lemma_repeat_len(meta_start, metadata_kv_count as nat, entry_step(data));
        lemma_repeat_len(tensor_start, tensor_count as nat, tensor_step(data, alignment));
        lemma_repeat_tensors_aligned(data, alignment, tensor_start, tensor_count as nat);
        lemma_alignment_of(metadata@.map_values(|e: MetadataEntry| entry_view(e)));
    }
    let data_offset = align_offset(position, alignment);
    let file = GgufFile { header, metadata, tensors, alignment, data_offset };
    assert(layout_ok(file@));
    Ok(file)
}

impl GgufFile {
    /// Parse a GGUF container from its bytes.
    ///
    /// Only the header, metadata, and tensor infos are decoded; the weight
    /// blob after `data_offset` is not read. The result is exactly the
    /// container model [`spec_parse_gguf`] of the bytes, and every failure is
    /// the [`PhalanxError::Gguf`] that the model names.
    pub fn parse(bytes: &[u8]) -> (res: Result<Self, PhalanxError>)
        requires
            bytes@.len() <= i64::MAX,
        ensures
            match spec_parse_gguf(bytes@) {
                Ok(m) => res matches Ok(f) && f@ == m,
                Err(e) => res matches Err(PhalanxError::Gguf(g)) && g@ == e,
            },
            res matches Ok(f) ==> layout_ok(f@),
    {
        match Self::parse_container(bytes) {
            Ok(f) => Ok(f),
            Err(e) => Err(PhalanxError::Gguf(e)),
        }
    }

    /// Parse from an in-memory buffer; same as [`GgufFile::parse`].
    pub fn from_bytes(bytes: &[u8]) -> (res: Result<Self, PhalanxError>)
        requires
            bytes@.len() <= i64::MAX,
        ensures
            match spec_parse_gguf(bytes@) {
                Ok(m) => res matches Ok(f) && f@ == m,
                Err(e) => res matches Err(PhalanxError::Gguf(g)) && g@ == e,
            },
            res matches Ok(f) ==> layout_ok(f@),
    {
        Self::parse(bytes)
    }

    #[verifier::loop_isolation(false)]
    fn parse_container(bytes: &[u8]) -> (res: Result<Self, GgufError>)
        requires
            bytes@.len() <= i64::MAX,
        ensures
            match spec_parse_gguf(bytes@) {
                Ok(m) => res matches Ok(f) && f@ == m,
                Err(e) => res matches Err(g) && g@ == e,
            },
            res matches Ok(f) ==> layout_ok(f@),
    {
        let mut reader = GgufReader::new(bytes);
        let magic = match reader.read_exact(4, "magic") {
            Ok(m) => m,
            Err(e) => return Err(e),
        };
        let got: [u8; 4] = [magic[0], magic[1], magic[2], magic[3]];
        assert(got@ =~= magic@);
        if got[0] != GGUF_MAGIC[0] || got[1] != GGUF_MAGIC[1] || got[2] != GGUF_MAGIC[2] || got[3]
            != GGUF_MAGIC[3] {
            return Err(GgufError::InvalidMagic { expected: GGUF_MAGIC, got });
        }
        assert(got@ =~= GGUF_MAGIC@);
        let version = match reader.read_u32("version") {
            Ok(v) => v,
            Err(e) => return Err(e),
        };
        if version != GGUF_VERSION_V2 && version != GGUF_VERSION_V3 {
            return Err(GgufError::UnsupportedVersion { version, supported: SUPPORTED_VERSIONS });
        }
        let tensor_count = match reader.read_u64("tensor_count") {
            Ok(v) => v,
            Err(e) => return Err(e),
        };
        if tensor_count > limits::MAX_TENSOR_COUNT {
            return Err(
                GgufError::LimitExceeded {
                    context: "tensor_count",
                    got: tensor_count,
                    limit: limits::MAX_TENSOR_COUNT,
                },
            );
        }
        let metadata_kv_count = match reader.read_u64("metadata_kv_count") {
            Ok(v) => v,
            Err(e) => return Err(e),
        };
        if metadata_kv_count > limits::MAX_METADATA_COUNT {
            return Err(
                GgufError::LimitExceeded {
                    context: "metadata_kv_count",
                    got: metadata_kv_count,
                    limit: limits::MAX_METADATA_COUNT,
                },
            );
        }
        let header = GgufHeader { version, tensor_count, metadata_kv_count };

        read_sections(&mut reader, header)
    }
}

/// Index of the first metadata entry whose key is `key`.
pub open spec fn key_index(metadata: Seq<MetadataEntry>, key: Seq<char>) -> Option<int> {
    first_index(metadata, |e: MetadataEntry| e.key@ == key)
}

/// Model of the first metadata value stored under `key`, if any.
pub open spec fn meta_lookup(metadata: Seq<MetadataEntry>, key: Seq<char>) -> Option<MetaValue> {
    match key_index(metadata, key) {
        Some(i) => Some(metadata[i].value.view_value()),
        None => None,
    }
}

/// Index of the first tensor record named `name`.
pub open spec fn tensor_index(tensors: Seq<TensorInfo>, name: Seq<char>) -> Option<int> {
    first_index(tensors, |t: TensorInfo| t.name@ == name)
}

impl GgufFile {
    /// First metadata value for `key`, if present.
    pub fn get(&self, key: &str) -> (res: Option<&MetadataValue>)
        ensures
            match key_index(self.metadata@, key@) {
                Some(i) => res == Some(&self.metadata@[i].value),
                None => res is None,
            },
    {
        let ghost p = |e: MetadataEntry| e.key@ == key@;
        let mut i: usize = 0;
        while i < self.metadata.len()
            invariant
                i <= self.metadata@.len(),
                p == (|e: MetadataEntry| e.key@ == key@),
                forall|j: int| 0 <= j < i ==> !p(#[trigger] self.metadata@[j]),
            decreases self.metadata@.len() - i,
        {
            let entry = &self.metadata[i];
            if str_eq(entry.key.as_str(), key) {
                proof {
                    lemma_first_index_is(self.metadata@, p, i as int);
                }
                return Some(&entry.value);
            }
            i = i + 1;
        }
        proof {
            lemma_first_index_none(self.metadata@, p);
        }
        None
    }

    /// `general.architecture` string, when present.
    pub fn architecture(&self) -> (res: Option<&str>)
        ensures
            match key_index(self.metadata@, ARCHITECTURE_KEY@) {
                Some(i) => match self.metadata@[i].value.view_value() {
                    MetaValue::Str(s) => res matches Some(r) && r@ == s,
                    _ => res is None,
                },
                None => res is None,
            },
    {
        match self.get(ARCHITECTURE_KEY) {
            Some(v) => v.as_str(),
            None => None,
        }
    }

    /// `general.name` string, when present.
    pub fn name(&self) -> (res: Option<&str>)
        ensures
            match key_index(self.metadata@, NAME_KEY@) {
                Some(i) => match self.metadata@[i].value.view_value() {
                    MetaValue::Str(s) => res matches Some(r) && r@ == s,
                    _ => res is None,
                },
                None => res is None,
            },
    {
        match self.get(NAME_KEY) {
            Some(v) => v.as_str(),
            None => None,
        }
    }

    /// Tensor info by exact name.
    pub fn tensor(&self, name: &str) -> (res: Option<&TensorInfo>)
        ensures
            match tensor_index(self.tensors@, name@) {
                Some(i) => res == Some(&self.tensors@[i]),
                None => res is None,
            },
    {
        let ghost p = |t: TensorInfo| t.name@ == name@;
        let mut i: usize = 0;
        while i < self.tensors.len()
            invariant
                i <= self.tensors@.len(),
                p == (|t: TensorInfo| t.name@ == name@),
                forall|j: int| 0 <= j < i ==> !p(#[trigger] self.tensors@[j]),
            decreases self.tensors@.len() - i,
        {
            let info = &self.tensors[i];
            if str_eq(info.name.as_str(), name) {
                proof {
                    lemma_first_index_is(self.tensors@, p, i as int);
                }
                return Some(info);
            }
            i = i + 1;
        }
        proof {
            lemma_first_index_none(self.tensors@, p);
        }
        None
    }

    /// Absolute file offset of a tensor's payload (`data_offset + offset`).
    ///
    /// Fails with [`GgufError::Invalid`] (context `tensor absolute offset`)
    /// exactly when the sum overflows `u64`.
    pub fn absolute_offset(&self, tensor: &TensorInfo) -> (res: Result<u64, PhalanxError>)
        ensures
            self.data_offset + tensor.offset <= u64::MAX ==> res == Ok::<u64, PhalanxError>(
                (self.data_offset + tensor.offset) as u64,
            ),
            self.data_offset + tensor.offset > u64::MAX ==> (res matches Err(PhalanxError::Gguf(g))
                && g@ == (GgufFault::Invalid { context: "tensor absolute offset"@ })),
    {
        match self.data_offset.checked_add(tensor.offset) {
            Some(v) => Ok(v),
            None => {
                let head = join3(
                    "data_offset ",
                    decimal_string(self.data_offset).as_str(),
                    " + relative ",
                );
                let body = join3(
                    head.as_str(),
                    decimal_string(tensor.offset).as_str(),
                    " overflows u64",
                );
                Err(
                    PhalanxError::Gguf(
                        GgufError::Invalid { context: "tensor absolute offset", reason: body },
                    ),
                )
            },
        }
    }
}

} // verus!
