//! Transformer hyperparameters loaded from GGUF metadata.
//!
//! Layer kernels need one validated source of truth for `n_embd`, head
//! counts, `RoPE` θ and so on; [`ModelConfig`] reads the metadata once and
//! exposes derived sizes (`head_dim`, `GQA` groups).
//!
//! Floating-point hyperparameters (`rms_norm_eps`, `freq_base`, the scaling
//! factor) are held as `f32` bit patterns (see [`crate::floatbits`]).

use vstd::prelude::*;
use vstd::string::StringExecFns;

use super::architecture::{architecture_named, Architecture};
use super::error::{ModelError, ModelFault};
use super::keys::{self, keyed, keyed_text};
use crate::errors::PhalanxError;
use crate::floatbits::{f32_positive_finite, f64_to_f32_bits, narrow_f64_bits, F32_INFINITY_BITS};
use crate::gguf::file::{key_index, meta_lookup};
use crate::gguf::types::ARCHITECTURE_KEY;
use crate::gguf::value::meta_value_type;
use crate::gguf::{GgufFile, MetaValue, MetadataValue, NAME_KEY};
use crate::text::decimal_string;

verus! {

/// Default `RoPE` base frequency when `rope.freq_base` is omitted: the bit
/// pattern of `10000.0_f32` (the `RoFormer` / Llama θ).
pub const DEFAULT_ROPE_FREQ_BASE: u32 = 0x461C_4000;

/// Attention-head hyperparameters.
#[derive(Debug, Clone, Copy, PartialEq, Eq, Structural)]
pub struct AttentionConfig {
    /// Query head count (`n_head`).
    pub head_count: u32,
    /// Key/value head count (`n_head_kv`); equals `head_count` when not `GQA`.
    pub head_count_kv: u32,
    /// Per-head key dimension (`d_k`).
    pub key_length: u32,
    /// Per-head value dimension (`d_v`).
    pub value_length: u32,
}

impl AttentionConfig {
    /// `true` when the model uses grouped-query attention.
    pub fn is_gqa(self) -> (res: bool)
        ensures
            res == (self.head_count_kv != self.head_count),
    {
        self.head_count_kv != self.head_count
    }

    /// Number of query heads that share one KV head (`head_count / head_count_kv`).
    pub fn gqa_groups(self) -> (res: u32)
        requires
            self.head_count_kv != 0,
        ensures
            res == self.head_count / self.head_count_kv,
    {
        self.head_count / self.head_count_kv
    }
}

/// Optional `RoPE` context-extension scaling declared in GGUF.
#[derive(Debug, PartialEq)]
pub struct RopeScaling {
    /// Algorithm name (`linear`, `yarn`, …).
    pub scaling_type: String,
    /// Multiplicative scale factor (an `f32` bit pattern) when present.
    pub factor: Option<u32>,
}

/// Rotary positional embedding hyperparameters.
#[derive(Debug, PartialEq)]
pub struct RopeConfig {
    /// Number of rotary dimensions (usually equal to `key_length` for Llama).
    pub dimension_count: u32,
    /// Base frequency θ (an `f32` bit pattern).
    pub freq_base: u32,
    /// Optional long-context scaling metadata.
    pub scaling: Option<RopeScaling>,
}

/// Validated decoder-only transformer configuration.
#[derive(Debug, PartialEq)]
pub struct ModelConfig {
    /// Architecture family.
    pub architecture: Architecture,
    /// Optional `general.name` display string.
    pub name: Option<String>,
    /// Optional `{arch}.vocab_size` (tokenizer length is authoritative when absent).
    pub vocab_size: Option<u32>,
    /// Maximum context length.
    pub context_length: u32,
    /// Hidden size / embedding length (`n_embd`).
    pub embedding_length: u32,
    /// `FFN` intermediate size (`n_ff`).
    pub feed_forward_length: u32,
    /// Number of transformer blocks (`n_layer`).
    pub block_count: u32,
    /// Attention head layout.
    pub attention: AttentionConfig,
    /// `RoPE` parameters.
    pub rope: RopeConfig,
    /// `RMSNorm` ε (`attention.layer_norm_rms_epsilon`, an `f32` bit pattern).
    pub rms_norm_eps: u32,
}

// ---------------------------------------------------------------------------
// Model
// ---------------------------------------------------------------------------

/// Model of [`RopeScaling`].
pub struct ScalingModel {
    pub scaling_type: Seq<char>,
    pub factor: Option<u32>,
}

/// Model of [`ModelConfig`]: strings as character sequences.
pub struct ConfigModel {
    pub architecture: Architecture,
    pub name: Option<Seq<char>>,
    pub vocab_size: Option<u32>,
    pub context_length: u32,
    pub embedding_length: u32,
    pub feed_forward_length: u32,
    pub block_count: u32,
    pub attention: AttentionConfig,
    pub rope_dimension_count: u32,
    pub rope_freq_base: u32,
    pub rope_scaling: Option<ScalingModel>,
    pub rms_norm_eps: u32,
}

impl View for RopeScaling {
    type V = ScalingModel;

    open spec fn view(&self) -> ScalingModel {
        ScalingModel { scaling_type: self.scaling_type@, factor: self.factor }
    }
}

impl View for ModelConfig {
    type V = ConfigModel;

    open spec fn view(&self) -> ConfigModel {
        ConfigModel {
            architecture: self.architecture,
            name: match self.name {
                Some(n) => Some(n@),
                None => None,
            },
            vocab_size: self.vocab_size,
            context_length: self.context_length,
            embedding_length: self.embedding_length,
            feed_forward_length: self.feed_forward_length,
            block_count: self.block_count,
            attention: self.attention,
            rope_dimension_count: self.rope.dimension_count,
            rope_freq_base: self.rope.freq_base,
            rope_scaling: match self.rope.scaling {
                Some(s) => Some(s@),
                None => None,
            },
            rms_norm_eps: self.rms_norm_eps,
        }
    }
}

impl Clone for RopeScaling {
    /// A copy with the same name and factor.
    fn clone(&self) -> (res: Self)
        ensures
            res@ == self@,
    {
        RopeScaling { scaling_type: self.scaling_type.clone(), factor: self.factor }
    }
}

impl Clone for RopeConfig {
    /// A copy with the same parameters.
    fn clone(&self) -> (res: Self)
        ensures
            res.dimension_count == self.dimension_count,
            res.freq_base == self.freq_base,
            match (res.scaling, self.scaling) {
                (Some(a), Some(b)) => a@ == b@,
                (None, None) => true,
                _ => false,
            },
    {
        let scaling = match &self.scaling {
            Some(s) => Some(s.clone()),
            None => None,
        };
        RopeConfig { dimension_count: self.dimension_count, freq_base: self.freq_base, scaling }
    }
}

impl Clone for ModelConfig {
    /// A copy with the same configuration.
    fn clone(&self) -> (res: Self)
        ensures
            res@ == self@,
    {
        let name = match &self.name {
            Some(n) => Some(n.clone()),
            None => None,
        };
        ModelConfig {
            architecture: self.architecture,
            name,
            vocab_size: self.vocab_size,
            context_length: self.context_length,
            embedding_length: self.embedding_length,
            feed_forward_length: self.feed_forward_length,
            block_count: self.block_count,
            attention: self.attention,
            rope: self.rope.clone(),
            rms_norm_eps: self.rms_norm_eps,
        }
    }
}

/// The structural checks every loaded configuration passes.
pub open spec fn config_valid(c: ConfigModel) -> bool {
    &&& c.block_count > 0
    &&& c.context_length > 0
    &&& c.embedding_length > 0
    &&& c.feed_forward_length > 0
    &&& c.attention.head_count > 0
    &&& c.attention.head_count_kv > 0
    &&& c.attention.key_length > 0
    &&& c.attention.value_length > 0
    &&& f32_positive_finite(c.rms_norm_eps)
    &&& f32_positive_finite(c.rope_freq_base)
    &&& c.rope_dimension_count > 0
    &&& c.rope_dimension_count <= c.attention.key_length
    &&& c.rope_dimension_count % 2 == 0
    &&& c.attention.head_count % c.attention.head_count_kv == 0
    &&& c.attention.head_count * c.attention.key_length == c.embedding_length
    &&& c.vocab_size != Some(0u32)
    &&& (c.rope_scaling matches Some(s) ==> (s.factor matches Some(f) ==> f32_positive_finite(f)))
}

/// Count read from a metadata value: `u32`, or `u64` that fits in `u32`.
pub open spec fn count_of(v: MetaValue, key: Seq<char>) -> Result<u32, ModelFault> {
    match v {
        MetaValue::U32(x) => Ok(x),
        MetaValue::U64(x) => if x <= u32::MAX {
            Ok(x as u32)
        } else {
            Err(ModelFault::InvalidType { key })
        },
        _ => Err(ModelFault::InvalidType { key }),
    }
}

/// Float read from a metadata value: `f32` as is, `f64` narrowed to `f32`.
pub open spec fn float_of(v: MetaValue, key: Seq<char>) -> Result<u32, ModelFault> {
    match v {
        MetaValue::F32(b) => Ok(b),
        MetaValue::F64(b) => Ok(f64_to_f32_bits(b)),
        _ => Err(ModelFault::InvalidType { key }),
    }
}

/// Required count under `{arch}.{suffix}`.
pub open spec fn required_count(md: Seq<crate::gguf::MetadataEntry>, arch: Seq<char>, suffix: Seq<char>) -> Result<u32, ModelFault> {
    let key = keyed_text(arch, suffix);
    match meta_lookup(md, key) {
        Some(v) => count_of(v, key),
        None => Err(ModelFault::MissingKey { key }),
    }
}

/// Optional count under `{arch}.{suffix}`.
pub open spec fn optional_count(md: Seq<crate::gguf::MetadataEntry>, arch: Seq<char>, suffix: Seq<char>) -> Result<Option<u32>, ModelFault> {
    let key = keyed_text(arch, suffix);
    match meta_lookup(md, key) {
        Some(v) => match count_of(v, key) {
            Ok(x) => Ok(Some(x)),
            Err(f) => Err(f),
        },
        None => Ok(None),
    }
}

/// Required float under `{arch}.{suffix}`.
pub open spec fn required_float(md: Seq<crate::gguf::MetadataEntry>, arch: Seq<char>, suffix: Seq<char>) -> Result<u32, ModelFault> {
    let key = keyed_text(arch, suffix);
    match meta_lookup(md, key) {
        Some(v) => float_of(v, key),
        None => Err(ModelFault::MissingKey { key }),
    }
}

/// Optional float under `{arch}.{suffix}`.
pub open spec fn optional_float(md: Seq<crate::gguf::MetadataEntry>, arch: Seq<char>, suffix: Seq<char>) -> Result<Option<u32>, ModelFault> {
    let key = keyed_text(arch, suffix);
    match meta_lookup(md, key) {
        Some(v) => match float_of(v, key) {
            Ok(x) => Ok(Some(x)),
            Err(f) => Err(f),
        },
        None => Ok(None),
    }
}

/// Optional string under `{arch}.{suffix}`.
pub open spec fn optional_text(md: Seq<crate::gguf::MetadataEntry>, arch: Seq<char>, suffix: Seq<char>) -> Result<Option<Seq<char>>, ModelFault> {
    let key = keyed_text(arch, suffix);
    match meta_lookup(md, key) {
        Some(MetaValue::Str(s)) => Ok(Some(s)),
        Some(_) => Err(ModelFault::InvalidType { key }),
        None => Ok(None),
    }
}

/// `RoPE` scaling: the declared type and factor; the legacy `rope.scale`
/// key stands in for a missing factor and implies `linear` scaling.
pub open spec fn scaling_of(md: Seq<crate::gguf::MetadataEntry>, arch: Seq<char>) -> Result<Option<ScalingModel>, ModelFault> {
    let ty = optional_text(md, arch, keys::ROPE_SCALING_TYPE@);
    let factor = optional_float(md, arch, keys::ROPE_SCALING_FACTOR@);
    let legacy = optional_float(md, arch, keys::ROPE_SCALE@);
    if ty is Err {
        Err(ty->Err_0)
    } else if factor is Err {
        Err(factor->Err_0)
    } else if factor->Ok_0 is None && legacy is Err {
        Err(legacy->Err_0)
    } else {
        let f = if factor->Ok_0 is Some {
            factor->Ok_0
        } else {
            legacy->Ok_0
        };
        match ty->Ok_0 {
            Some(t) => Ok(Some(ScalingModel { scaling_type: t, factor: f })),
            None => match f {
                Some(x) => Ok(Some(ScalingModel { scaling_type: "linear"@, factor: Some(x) })),
                None => Ok(None),
            },
        }
    }
}

/// `general.name` when it is a string.
pub open spec fn name_of(md: Seq<crate::gguf::MetadataEntry>) -> Option<Seq<char>> {
    match meta_lookup(md, NAME_KEY@) {
        Some(MetaValue::Str(s)) => Some(s),
        _ => None,
    }
}

/// What `ModelConfig::from_gguf` reads from the metadata once the
/// architecture is known: each key in turn, the first failure winning, then
/// the structural checks.
pub open spec fn config_for(md: Seq<crate::gguf::MetadataEntry>, a: Seq<char>, arch: Architecture) -> Result<ConfigModel, ModelFault> {
    let block = required_count(md, a, keys::BLOCK_COUNT@);
    let ctx = required_count(md, a, keys::CONTEXT_LENGTH@);
    let embd = required_count(md, a, keys::EMBEDDING_LENGTH@);
    let ff = required_count(md, a, keys::FEED_FORWARD_LENGTH@);
    let vocab = optional_count(md, a, keys::VOCAB_SIZE@);
    let heads = required_count(md, a, keys::ATTENTION_HEAD_COUNT@);
    let heads_kv = optional_count(md, a, keys::ATTENTION_HEAD_COUNT_KV@);
    let key_len = optional_count(md, a, keys::ATTENTION_KEY_LENGTH@);
    let value_len = optional_count(md, a, keys::ATTENTION_VALUE_LENGTH@);
    let eps = required_float(md, a, keys::ATTENTION_LAYER_NORM_RMS_EPSILON@);
    let rope_dim = required_count(md, a, keys::ROPE_DIMENSION_COUNT@);
    let freq = optional_float(md, a, keys::ROPE_FREQ_BASE@);
    let scaling = scaling_of(md, a);
    if block is Err {
        Err(block->Err_0)
    } else if ctx is Err {
        Err(ctx->Err_0)
    } else if embd is Err {
        Err(embd->Err_0)
    } else if ff is Err {
        Err(ff->Err_0)
    } else if vocab is Err {
        Err(vocab->Err_0)
    } else if heads is Err {
        Err(heads->Err_0)
    } else if heads_kv is Err {
        Err(heads_kv->Err_0)
    } else if heads->Ok_0 == 0 {
        Err(ModelFault::InvalidConfig)
    } else if key_len is Err {
        Err(key_len->Err_0)
    } else if value_len is Err {
        Err(value_len->Err_0)
    } else if eps is Err {
        Err(eps->Err_0)
    } else if rope_dim is Err {
        Err(rope_dim->Err_0)
    } else if freq is Err {
        Err(freq->Err_0)
    } else if scaling is Err {
        Err(scaling->Err_0)
    } else {
        let head_dim = (embd->Ok_0 / heads->Ok_0) as u32;
        let c = ConfigModel {
            architecture: arch,
            name: name_of(md),
            vocab_size: vocab->Ok_0,
            context_length: ctx->Ok_0,
            embedding_length: embd->Ok_0,
            feed_forward_length: ff->Ok_0,
            block_count: block->Ok_0,
            attention: AttentionConfig {
                head_count: heads->Ok_0,
                head_count_kv: match heads_kv->Ok_0 {
                    Some(x) => x,
                    None => heads->Ok_0,
                },
                key_length: match key_len->Ok_0 {
                    Some(x) => x,
                    None => head_dim,
                },
                value_length: match value_len->Ok_0 {
                    Some(x) => x,
                    None => head_dim,
                },
            },
            rope_dimension_count: rope_dim->Ok_0,
            rope_freq_base: match freq->Ok_0 {
                Some(x) => x,
                None => DEFAULT_ROPE_FREQ_BASE,
            },
            rope_scaling: scaling->Ok_0,
            rms_norm_eps: eps->Ok_0,
        };
        if config_valid(c) {
            Ok(c)
        } else {
            Err(ModelFault::InvalidConfig)
        }
    }
}

/// What `ModelConfig::from_gguf` answers for a metadata table.
pub open spec fn config_from_metadata(md: Seq<crate::gguf::MetadataEntry>) -> Result<ConfigModel, ModelFault> {
    match meta_lookup(md, ARCHITECTURE_KEY@) {
        Some(MetaValue::Str(a)) => match architecture_named(a) {
            Some(arch) => config_for(md, a, arch),
            None => Err(ModelFault::UnsupportedArchitecture { architecture: a }),
        },
        _ => Err(ModelFault::MissingArchitecture),
    }
}

/// Every configuration that loading accepts passes the structural checks;
/// in particular its query heads split evenly over the KV heads and
/// `head_count * key_length == embedding_length`.
pub proof fn lemma_loaded_config_valid(md: Seq<crate::gguf::MetadataEntry>)
    ensures
        config_from_metadata(md) matches Ok(c) ==> {
            &&& config_valid(c)
            &&& (c.attention.head_count / c.attention.head_count_kv) * c.attention.head_count_kv
                == c.attention.head_count
        },
{
    if let Ok(c) = config_from_metadata(md) {
        let h = c.attention.head_count as int;
        let k = c.attention.head_count_kv as int;
        assert((h / k) * k == h) by (nonlinear_arith)
            requires
                k > 0,
                h % k == 0,
        ;
    }
}

/// Where the attention sizes of a loaded configuration come from: the
/// embedding width and query head count are the values under their keys;
/// key and value lengths are the values under their keys when present and
/// default to `embedding_length / head_count` when absent; the KV head count
/// is the value under its key when present and defaults to `head_count`.
pub proof fn lemma_loaded_attention_sizes(md: Seq<crate::gguf::MetadataEntry>)
    ensures
        config_from_metadata(md) matches Ok(c) ==> meta_lookup(md, ARCHITECTURE_KEY@) matches Some(
            MetaValue::Str(a),
        ) && {
            let embd_key = keyed_text(a, keys::EMBEDDING_LENGTH@);
            let heads_key = keyed_text(a, keys::ATTENTION_HEAD_COUNT@);
            let kv_key = keyed_text(a, keys::ATTENTION_HEAD_COUNT_KV@);
            let key_key = keyed_text(a, keys::ATTENTION_KEY_LENGTH@);
            let value_key = keyed_text(a, keys::ATTENTION_VALUE_LENGTH@);
            let att = c.attention;
            &&& meta_lookup(md, embd_key) matches Some(v) && count_of(v, embd_key) == Ok::<
                u32,
                ModelFault,
            >(c.embedding_length)
            &&& meta_lookup(md, heads_key) matches Some(v) && count_of(v, heads_key) == Ok::<
                u32,
                ModelFault,
            >(att.head_count)
            &&& meta_lookup(md, kv_key) matches Some(v) ==> count_of(v, kv_key) == Ok::<
                u32,
                ModelFault,
            >(att.head_count_kv)
            &&& meta_lookup(md, kv_key) is None ==> att.head_count_kv == att.head_count
            &&& meta_lookup(md, key_key) matches Some(v) ==> count_of(v, key_key) == Ok::<
                u32,
                ModelFault,
            >(att.key_length)
            &&& meta_lookup(md, key_key) is None ==> att.key_length == c.embedding_length
                / att.head_count
            &&& meta_lookup(md, value_key) matches Some(v) ==> count_of(v, value_key) == Ok::<
                u32,
                ModelFault,
            >(att.value_length)
            &&& meta_lookup(md, value_key) is None ==> att.value_length == c.embedding_length
                / att.head_count
        },
{
}

/// Where the other hyperparameters of a loaded configuration come from: the
/// architecture is the family `general.architecture` names; block count,
/// context length, feed-forward width and rotary dimension count are the
/// values under their keys; the vocabulary size is the value under its key
/// or absent; the `RoPE` base is the value under its key when present and
/// `10000.0` when absent.
pub proof fn lemma_loaded_hyperparameters(md: Seq<crate::gguf::MetadataEntry>)
    ensures
        config_from_metadata(md) matches Ok(c) ==> meta_lookup(md, ARCHITECTURE_KEY@) matches Some(
            MetaValue::Str(a),
        ) && {
            let block_key = keyed_text(a, keys::BLOCK_COUNT@);
            let ctx_key = keyed_text(a, keys::CONTEXT_LENGTH@);
            let ff_key = keyed_text(a, keys::FEED_FORWARD_LENGTH@);
            let rope_key = keyed_text(a, keys::ROPE_DIMENSION_COUNT@);
            let vocab_key = keyed_text(a, keys::VOCAB_SIZE@);
            let base_key = keyed_text(a, keys::ROPE_FREQ_BASE@);
            &&& architecture_named(a) == Some(c.architecture)
            &&& meta_lookup(md, block_key) matches Some(v) && count_of(v, block_key) == Ok::<
                u32,
                ModelFault,
            >(c.block_count)
            &&& meta_lookup(md, ctx_key) matches Some(v) && count_of(v, ctx_key) == Ok::<
                u32,
                ModelFault,
            >(c.context_length)
            &&& meta_lookup(md, ff_key) matches Some(v) && count_of(v, ff_key) == Ok::<
                u32,
                ModelFault,
            >(c.feed_forward_length)
            &&& meta_lookup(md, rope_key) matches Some(v) && count_of(v, rope_key) == Ok::<
                u32,
                ModelFault,
            >(c.rope_dimension_count)
            &&& meta_lookup(md, vocab_key) matches Some(v) ==> c.vocab_size matches Some(n)
                && count_of(v, vocab_key) == Ok::<u32, ModelFault>(n)
            &&& meta_lookup(md, vocab_key) is None ==> c.vocab_size is None
            &&& meta_lookup(md, base_key) matches Some(v) ==> float_of(v, base_key) == Ok::<
                u32,
                ModelFault,
            >(c.rope_freq_base)
            &&& meta_lookup(md, base_key) is None ==> c.rope_freq_base == 0x461C_4000u32
        },
{
}

// ---------------------------------------------------------------------------
// Loading
// ---------------------------------------------------------------------------

/// Wraps a model fault into the library error.
fn model_err(e: ModelError) -> (res: PhalanxError)
    ensures
        res == PhalanxError::Model(e),
{
    PhalanxError::Model(e)
}

/// `true` when `res` is the model error with model `f`.
pub open spec fn is_model_fault<T>(res: Result<T, PhalanxError>, f: ModelFault) -> bool {
    res matches Err(PhalanxError::Model(e)) && e@ == f
}

fn invalid_type(key: &str, head: &str, tail: &str) -> (e: PhalanxError)
    ensures
        is_model_fault::<()>(Err(e), ModelFault::InvalidType { key: key@ }),
{
    let mut reason = head.to_owned();
    reason.append(tail);
    model_err(ModelError::InvalidType { key: key.to_owned(), reason })
}

fn u32_from_value(value: &MetadataValue, key: &str) -> (res: Result<u32, PhalanxError>)
    ensures
        match count_of(value.view_value(), key@) {
            Ok(x) => res == Ok::<u32, PhalanxError>(x),
            Err(f) => is_model_fault(res, f),
        },
{
    match value.as_u64() {
        None => Err(invalid_type(key, "expected u32/u64, got ", value.value_type().debug_name())),
        Some(v) => {
            if v <= 0xFFFF_FFFFu64 {
                Ok(v as u32)
            } else {
                let mut reason = "value ".to_owned();
                reason.append(decimal_string(v).as_str());
                reason.append(" does not fit in u32");
                Err(model_err(ModelError::InvalidType { key: key.to_owned(), reason }))
            }
        },
    }
}

fn f32_from_value(value: &MetadataValue, key: &str) -> (res: Result<u32, PhalanxError>)
    ensures
        match float_of(value.view_value(), key@) {
            Ok(x) => res == Ok::<u32, PhalanxError>(x),
            Err(f) => is_model_fault(res, f),
        },
{
    match value {
        MetadataValue::F32(v) => Ok(*v),
        MetadataValue::F64(v) => Ok(narrow_f64_bits(*v)),
        other => Err(invalid_type(key, "expected f32/f64, got ", other.value_type().debug_name())),
    }
}

fn required_u32(file: &GgufFile, arch: &str, suffix: &str) -> (res: Result<u32, PhalanxError>)
    ensures
        match required_count(file.metadata@, arch@, suffix@) {
            Ok(x) => res == Ok::<u32, PhalanxError>(x),
            Err(f) => is_model_fault(res, f),
        },
{
    let key = keyed(arch, suffix);
    match file.get(key.as_str()) {
        None => Err(model_err(ModelError::MissingKey { key })),
        Some(value) => u32_from_value(value, key.as_str()),
    }
}

fn optional_u32(file: &GgufFile, arch: &str, suffix: &str) -> (res: Result<Option<u32>, PhalanxError>)
    ensures
        match optional_count(file.metadata@, arch@, suffix@) {
            Ok(x) => res == Ok::<Option<u32>, PhalanxError>(x),
            Err(f) => is_model_fault(res, f),
        },
{
    let key = keyed(arch, suffix);
    match file.get(key.as_str()) {
        None => Ok(None),
        Some(value) => match u32_from_value(value, key.as_str()) {
            Ok(v) => Ok(Some(v)),
            Err(e) => Err(e),
        },
    }
}

fn required_f32(file: &GgufFile, arch: &str, suffix: &str) -> (res: Result<u32, PhalanxError>)
    ensures
        match required_float(file.metadata@, arch@, suffix@) {
            Ok(x) => res == Ok::<u32, PhalanxError>(x),
            Err(f) => is_model_fault(res, f),
        },
{
    let key = keyed(arch, suffix);
    match file.get(key.as_str()) {
        None => Err(model_err(ModelError::MissingKey { key })),
        Some(value) => f32_from_value(value, key.as_str()),
    }
}

fn optional_f32(file: &GgufFile, arch: &str, suffix: &str) -> (res: Result<Option<u32>, PhalanxError>)
    ensures
        match optional_float(file.metadata@, arch@, suffix@) {
            Ok(x) => res == Ok::<Option<u32>, PhalanxError>(x),
            Err(f) => is_model_fault(res, f),
        },
{
    let key = keyed(arch, suffix);
    match file.get(key.as_str()) {
        None => Ok(None),
        Some(value) => match f32_from_value(value, key.as_str()) {
            Ok(v) => Ok(Some(v)),
            Err(e) => Err(e),
        },
    }
}

fn optional_str(file: &GgufFile, arch: &str, suffix: &str) -> (res: Result<Option<String>, PhalanxError>)
    ensures
        match optional_text(file.metadata@, arch@, suffix@) {
            Ok(Some(s)) => res matches Ok(Some(r)) && r@ == s,
            Ok(None) => res matches Ok(None),
            Err(f) => is_model_fault(res, f),
        },
{
    let key = keyed(arch, suffix);
    match file.get(key.as_str()) {
        None => Ok(None),
        Some(value) => match value.as_str() {
            Some(s) => Ok(Some(s.to_owned())),
            None => Err(invalid_type(key.as_str(), "expected string, got ", value.value_type().debug_name())),
        },
    }
}

fn load_rope_scaling(file: &GgufFile, arch: &str) -> (res: Result<Option<RopeScaling>, PhalanxError>)
    ensures
        match scaling_of(file.metadata@, arch@) {
            Ok(Some(m)) => res matches Ok(Some(r)) && r@ == m,
            Ok(None) => res matches Ok(None),
            Err(f) => is_model_fault(res, f),
        },
{
    let scaling_type = match optional_str(file, arch, keys::ROPE_SCALING_TYPE) {
        Ok(t) => t,
        Err(e) => {
            return Err(e);
        },
    };
    let factor = match optional_f32(file, arch, keys::ROPE_SCALING_FACTOR) {
        Ok(Some(f)) => Some(f),
        Ok(None) => match optional_f32(file, arch, keys::ROPE_SCALE) {
            Ok(f) => f,
            Err(e) => {
                return Err(e);
            },
        },
        Err(e) => {
            return Err(e);
        },
    };
    match scaling_type {
        Some(scaling_type) => Ok(Some(RopeScaling { scaling_type, factor })),
        None => match factor {
            None => Ok(None),
            Some(f) => Ok(Some(RopeScaling { scaling_type: "linear".to_owned(), factor: Some(f) })),
        },
    }
}

impl ModelConfig {
    /// Load and validate hyperparameters from a parsed [`GgufFile`].
    ///
    /// The result is exactly [`config_from_metadata`] of the file's metadata:
    /// [`ModelError::MissingArchitecture`] when `general.architecture` is not
    /// a string, [`ModelError::UnsupportedArchitecture`] for an unknown
    /// family, then the first missing or mistyped key, then
    /// [`ModelError::InvalidConfig`] when a structural check fails.
    pub fn from_gguf(file: &GgufFile) -> (res: Result<Self, PhalanxError>)
        ensures
            match config_from_metadata(file.metadata@) {
                Ok(m) => res matches Ok(c) && c@ == m,
                Err(f) => is_model_fault(res, f),
            },
            res matches Ok(c) ==> config_valid(c@),
    {
        let arch_name = match file.architecture() {
            Some(a) => a,
            None => {
                return Err(model_err(ModelError::MissingArchitecture));
            },
        };
        let architecture = match Architecture::parse(arch_name) {
            Some(a) => a,
            None => {
                return Err(
                    model_err(
                        ModelError::UnsupportedArchitecture { architecture: arch_name.to_owned() },
                    ),
                );
            },
        };
        let name = match file.name() {
            Some(n) => Some(n.to_owned()),
            None => None,
        };
        let block_count = match required_u32(file, arch_name, keys::BLOCK_COUNT) {
            Ok(v) => v,
            Err(e) => {
                return Err(e);
            },
        };
        let context_length = match required_u32(file, arch_name, keys::CONTEXT_LENGTH) {
            Ok(v) => v,
            Err(e) => {
                return Err(e);
            },
        };
        let embedding_length = match required_u32(file, arch_name, keys::EMBEDDING_LENGTH) {
            Ok(v) => v,
            Err(e) => {
                return Err(e);
            },
        };
        let feed_forward_length = match required_u32(file, arch_name, keys::FEED_FORWARD_LENGTH) {
            Ok(v) => v,
            Err(e) => {
                return Err(e);
            },
        };
        let vocab_size = match optional_u32(file, arch_name, keys::VOCAB_SIZE) {
            Ok(v) => v,
            Err(e) => {
                return Err(e);
            },
        };
        let head_count = match required_u32(file, arch_name, keys::ATTENTION_HEAD_COUNT) {
            Ok(v) => v,
            Err(e) => {
                return Err(e);
            },
        };
        let head_count_kv = match optional_u32(file, arch_name, keys::ATTENTION_HEAD_COUNT_KV) {
            Ok(Some(v)) => v,
            Ok(None) => head_count,
            Err(e) => {
                return Err(e);
            },
        };
        if head_count == 0 {
            return Err(model_err(ModelError::invalid("attention.head_count must be non-zero")));
        }
        let default_head_dim = embedding_length / head_count;
        let key_length = match optional_u32(file, arch_name, keys::ATTENTION_KEY_LENGTH) {
            Ok(Some(v)) => v,
            Ok(None) => default_head_dim,
            Err(e) => {
                return Err(e);
            },
        };
        let value_length = match optional_u32(file, arch_name, keys::ATTENTION_VALUE_LENGTH) {
            Ok(Some(v)) => v,
            Ok(None) => default_head_dim,
            Err(e) => {
                return Err(e);
            },
        };
        let rms_norm_eps = match required_f32(
            file,
            arch_name,
            keys::ATTENTION_LAYER_NORM_RMS_EPSILON,
        ) {
            Ok(v) => v,
            Err(e) => {
                return Err(e);
            },
        };
        let rope_dimension_count = match required_u32(file, arch_name, keys::ROPE_DIMENSION_COUNT) {
            Ok(v) => v,
            Err(e) => {
                return Err(e);
            },
        };
        let rope_freq_base = match optional_f32(file, arch_name, keys::ROPE_FREQ_BASE) {
            Ok(Some(v)) => v,
            Ok(None) => DEFAULT_ROPE_FREQ_BASE,
            Err(e) => {
                return Err(e);
            },
        };
        let rope_scaling = match load_rope_scaling(file, arch_name) {
            Ok(v) => v,
            Err(e) => {
                return Err(e);
            },
        };
        let config = ModelConfig {
            architecture,
            name,
            vocab_size,
            context_length,
            embedding_length,
            feed_forward_length,
            block_count,
            attention: AttentionConfig { head_count, head_count_kv, key_length, value_length },
            rope: RopeConfig {
                dimension_count: rope_dimension_count,
                freq_base: rope_freq_base,
                scaling: rope_scaling,
            },
            rms_norm_eps,
        };
        match config.validate() {
            Ok(()) => Ok(config),
            Err(e) => Err(e),
        }
    }

    /// Accept a configuration built by hand after the same structural checks
    /// as [`ModelConfig::from_gguf`]: `Ok` with the input unchanged exactly
    /// when [`config_valid`] holds, [`ModelError::InvalidConfig`] otherwise.
    pub fn from_parts(config: Self) -> (res: Result<Self, PhalanxError>)
        ensures
            config_valid(config@) ==> res == Ok::<ModelConfig, PhalanxError>(config),
            !config_valid(config@) ==> is_model_fault(res, ModelFault::InvalidConfig),
    {
        match config.validate() {
            Ok(()) => Ok(config),
            Err(e) => Err(e),
        }
    }

    /// Query head dimension (`key_length`).
    pub fn head_dim(&self) -> (res: u32)
        ensures
            res == self.attention.key_length,
    {
        self.attention.key_length
    }

    /// Total attention projection width for Q (`head_count * key_length`).
    pub fn query_dim(&self) -> (res: u32)
        requires
            self.attention.head_count * self.attention.key_length <= u32::MAX,
        ensures
            res == self.attention.head_count * self.attention.key_length,
    {
        self.attention.head_count * self.attention.key_length
    }

    /// Total KV projection width per cache side (`head_count_kv * key_length`).
    pub fn kv_dim(&self) -> (res: u32)
        requires
            self.attention.head_count_kv * self.attention.key_length <= u32::MAX,
        ensures
            res == self.attention.head_count_kv * self.attention.key_length,
    {
        self.attention.head_count_kv * self.attention.key_length
    }

    fn validate(&self) -> (res: Result<(), PhalanxError>)
        ensures
            config_valid(self@) ==> res is Ok,
            !config_valid(self@) ==> is_model_fault(res, ModelFault::InvalidConfig),
    {
        if self.block_count == 0 {
            return Err(model_err(ModelError::invalid("block_count must be > 0")));
        }
        if self.context_length == 0 {
            return Err(model_err(ModelError::invalid("context_length must be > 0")));
        }
        if self.embedding_length == 0 {
            return Err(model_err(ModelError::invalid("embedding_length must be > 0")));
        }
        if self.feed_forward_length == 0 {
            return Err(model_err(ModelError::invalid("feed_forward_length must be > 0")));
        }
        if self.attention.head_count == 0 {
            return Err(model_err(ModelError::invalid("attention.head_count must be > 0")));
        }
        if self.attention.head_count_kv == 0 {
            return Err(model_err(ModelError::invalid("attention.head_count_kv must be > 0")));
        }
        if self.attention.key_length == 0 || self.attention.value_length == 0 {
            return Err(model_err(ModelError::invalid("attention key/value length must be > 0")));
        }
        if !(0 < self.rms_norm_eps && self.rms_norm_eps < F32_INFINITY_BITS) {
            return Err(
                model_err(
                    ModelError::invalid(
                        "attention.layer_norm_rms_epsilon must be a finite value > 0",
                    ),
                ),
            );
        }
        if !(0 < self.rope.freq_base && self.rope.freq_base < F32_INFINITY_BITS) {
            return Err(model_err(ModelError::invalid("rope.freq_base must be a finite value > 0")));
        }
        if self.rope.dimension_count == 0 {
            return Err(model_err(ModelError::invalid("rope.dimension_count must be > 0")));
        }
        if self.rope.dimension_count > self.attention.key_length {
            let mut reason = "rope.dimension_count (".to_owned();
            reason.append(decimal_string(self.rope.dimension_count as u64).as_str());
            reason.append(") exceeds key_length (");
            reason.append(decimal_string(self.attention.key_length as u64).as_str());
            reason.append(")");
            return Err(model_err(ModelError::InvalidConfig { reason }));
        }
        if self.rope.dimension_count % 2 != 0 {
            return Err(
                model_err(
                    ModelError::invalid("rope.dimension_count must be even (paired rotary dimensions)"),
                ),
            );
        }
        if self.attention.head_count % self.attention.head_count_kv != 0 {
            let mut reason = "attention.head_count (".to_owned();
            reason.append(decimal_string(self.attention.head_count as u64).as_str());
            reason.append(") must be a multiple of head_count_kv (");
            reason.append(decimal_string(self.attention.head_count_kv as u64).as_str());
            reason.append(")");
            return Err(model_err(ModelError::InvalidConfig { reason }));
        }
        let q_width = match self.attention.head_count.checked_mul(self.attention.key_length) {
            Some(w) => w,
            None => {
                return Err(model_err(ModelError::invalid("query width overflowed u32")));
            },
        };
        if q_width != self.embedding_length {
            let mut reason = "head_count * key_length (".to_owned();
            reason.append(decimal_string(q_width as u64).as_str());
            reason.append(") != embedding_length (");
            reason.append(decimal_string(self.embedding_length as u64).as_str());
            reason.append(")");
            return Err(model_err(ModelError::InvalidConfig { reason }));
        }
        if let Some(vocab) = self.vocab_size {
            if vocab == 0 {
                return Err(model_err(ModelError::invalid("vocab_size must be > 0 when present")));
            }
        }
        if let Some(scale) = &self.rope.scaling {
            if let Some(factor) = scale.factor {
                if !(0 < factor && factor < F32_INFINITY_BITS) {
                    return Err(
                        model_err(
                            ModelError::invalid(
                                "rope.scaling.factor must be a finite value > 0 when present",
                            ),
                        ),
                    );
                }
            }
        }
        Ok(())
    }
}

} // verus!
