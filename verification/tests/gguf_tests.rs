use phalanx::gguf::{
    align_offset, GgmlType, GgufError, GgufFile, MetadataArray, MetadataValue, MetadataValueType,
    TensorInfo, ALIGNMENT_KEY, ARCHITECTURE_KEY, DEFAULT_ALIGNMENT, GGUF_MAGIC, NAME_KEY,
};
use phalanx::layers::embedding::resolve_embedding;
use phalanx::layers::{EmbeddingTable, LayersError, TOKEN_EMBD_WEIGHT};
use phalanx::model::keys::{self, keyed};
use phalanx::model::{Architecture, ModelConfig, ModelError, DEFAULT_ROPE_FREQ_BASE};
use phalanx::tensor::Tensor;
use phalanx::tokenizer::keys as tok_keys;
use phalanx::tokenizer::{EncodeOptions, Tokenizer, TokenizerError, TokenizerModel};
use phalanx::weights::{FloatWords, WeightSet, WeightsError};
use phalanx::PhalanxError;

/// Builder for tiny in-memory GGUF fixtures.
struct GgufBuilder {
    version: u32,
    metadata: Vec<(String, MetadataValue)>,
    tensors: Vec<TensorInfo>,
    alignment: Option<u32>,
}

impl GgufBuilder {
    fn new() -> Self {
        Self { version: 3, metadata: Vec::new(), tensors: Vec::new(), alignment: None }
    }

    fn architecture(mut self, arch: &str) -> Self {
        self.metadata.push((ARCHITECTURE_KEY.into(), MetadataValue::String(arch.into())));
        self
    }

    fn name(mut self, name: &str) -> Self {
        self.metadata.push((NAME_KEY.into(), MetadataValue::String(name.into())));
        self
    }

    fn alignment(mut self, alignment: u32) -> Self {
        self.alignment = Some(alignment);
        self
    }

    fn meta_u32(mut self, key: &str, value: u32) -> Self {
        self.metadata.push((key.into(), MetadataValue::U32(value)));
        self
    }

    fn meta_u64(mut self, key: &str, value: u64) -> Self {
        self.metadata.push((key.into(), MetadataValue::U64(value)));
        self
    }

    fn meta_f32(mut self, key: &str, value: f32) -> Self {
        self.metadata.push((key.into(), MetadataValue::F32(value.to_bits())));
        self
    }

    fn meta_f64(mut self, key: &str, value: f64) -> Self {
        self.metadata.push((key.into(), MetadataValue::F64(value.to_bits())));
        self
    }

    fn meta_string(mut self, key: &str, value: &str) -> Self {
        self.metadata.push((key.into(), MetadataValue::String(value.into())));
        self
    }

    fn meta_array_u32(mut self, key: &str, values: &[u32]) -> Self {
        self.metadata.push((
            key.into(),
            MetadataValue::Array(MetadataArray {
                element_type: MetadataValueType::U32,
                values: values.iter().copied().map(MetadataValue::U32).collect(),
            }),
        ));
        self
    }

    fn meta_array_string(mut self, key: &str, values: &[&str]) -> Self {
        self.metadata.push((
            key.into(),
            MetadataValue::Array(MetadataArray {
                element_type: MetadataValueType::String,
                values: values.iter().map(|s| MetadataValue::String((*s).into())).collect(),
            }),
        ));
        self
    }

    fn meta_array_i32(mut self, key: &str, values: &[i32]) -> Self {
        self.metadata.push((
            key.into(),
            MetadataValue::Array(MetadataArray {
                element_type: MetadataValueType::I32,
                values: values.iter().copied().map(MetadataValue::I32).collect(),
            }),
        ));
        self
    }

    fn tensor(mut self, info: TensorInfo) -> Self {
        self.tensors.push(info);
        self
    }

    fn build(self) -> Vec<u8> {
        let mut out = Vec::new();
        out.extend_from_slice(&GGUF_MAGIC);
        out.extend_from_slice(&self.version.to_le_bytes());
        out.extend_from_slice(&(self.tensors.len() as u64).to_le_bytes());
        let mut metadata = self.metadata;
        if let Some(alignment) = self.alignment {
            metadata.push((ALIGNMENT_KEY.into(), MetadataValue::U32(alignment)));
        }
        out.extend_from_slice(&(metadata.len() as u64).to_le_bytes());
        for (key, value) in &metadata {
            write_string(&mut out, key);
            out.extend_from_slice(&value.value_type().to_u32().to_le_bytes());
            write_payload(&mut out, value);
        }
        for tensor in &self.tensors {
            write_string(&mut out, &tensor.name);
            out.extend_from_slice(&(tensor.dimensions.len() as u32).to_le_bytes());
            for dim in &tensor.dimensions {
                out.extend_from_slice(&dim.to_le_bytes());
            }
            out.extend_from_slice(&ggml_type_id(tensor.ggml_type).to_le_bytes());
            out.extend_from_slice(&tensor.offset.to_le_bytes());
        }
        out
    }
}

fn write_string(out: &mut Vec<u8>, s: &str) {
    out.extend_from_slice(&(s.len() as u64).to_le_bytes());
    out.extend_from_slice(s.as_bytes());
}

fn write_payload(out: &mut Vec<u8>, value: &MetadataValue) {
    match value {
        MetadataValue::U8(v) => out.push(*v),
        MetadataValue::I8(v) => out.push(*v as u8),
        MetadataValue::U16(v) => out.extend_from_slice(&v.to_le_bytes()),
        MetadataValue::I16(v) => out.extend_from_slice(&v.to_le_bytes()),
        MetadataValue::U32(v) => out.extend_from_slice(&v.to_le_bytes()),
        MetadataValue::I32(v) => out.extend_from_slice(&v.to_le_bytes()),
        MetadataValue::F32(v) => out.extend_from_slice(&v.to_le_bytes()),
        MetadataValue::Bool(v) => out.push(u8::from(*v)),
        MetadataValue::String(v) => write_string(out, v),
        MetadataValue::U64(v) => out.extend_from_slice(&v.to_le_bytes()),
        MetadataValue::I64(v) => out.extend_from_slice(&v.to_le_bytes()),
        MetadataValue::F64(v) => out.extend_from_slice(&v.to_le_bytes()),
        MetadataValue::Array(array) => {
            out.extend_from_slice(&array.element_type.to_u32().to_le_bytes());
            out.extend_from_slice(&(array.values.len() as u64).to_le_bytes());
            for element in &array.values {
                write_payload(out, element);
            }
        }
    }
}

fn ggml_type_id(ggml_type: GgmlType) -> u32 {
    match ggml_type {
        GgmlType::F32 => 0,
        GgmlType::F16 => 1,
        GgmlType::Q4_0 => 2,
        GgmlType::Q4_1 => 3,
        GgmlType::Q5_0 => 6,
        GgmlType::Q5_1 => 7,
        GgmlType::Q8_0 => 8,
        GgmlType::Q8_1 => 9,
        GgmlType::Q2K => 10,
        GgmlType::Q3K => 11,
        GgmlType::Q4K => 12,
        GgmlType::Q5K => 13,
        GgmlType::Q6K => 14,
        GgmlType::Q8K => 15,
        GgmlType::Unknown(id) => id,
        other => panic!("test builder missing ggml type id for {other:?}"),
    }
}

/// Header bytes padded to the data section, then `payload`.
fn with_payload(header: Vec<u8>, payload: &[u8]) -> Vec<u8> {
    let data_offset = usize::try_from(align_offset(header.len() as u64, DEFAULT_ALIGNMENT)).unwrap();
    let mut bytes = header;
    bytes.resize(data_offset, 0);
    bytes.extend_from_slice(payload);
    bytes
}

fn f32_payload(values: &[f32]) -> Vec<u8> {
    let mut payload = Vec::new();
    for v in values {
        payload.extend_from_slice(&v.to_le_bytes());
    }
    payload
}

// ---------------------------------------------------------------------------
// GGUF container
// ---------------------------------------------------------------------------

#[test]
fn parses_minimal_container() {
    let bytes = GgufBuilder::new()
        .architecture("llama")
        .name("toy")
        .meta_u32("llama.block_count", 2)
        .meta_array_u32("llama.expert_used_count", &[1, 2, 3])
        .tensor(TensorInfo {
            name: "token_embd.weight".into(),
            dimensions: vec![4, 8],
            ggml_type: GgmlType::F32,
            offset: 0,
        })
        .build();

    let file = GgufFile::from_bytes(&bytes).unwrap();
    assert_eq!(file.header.version, 3);
    assert_eq!(file.header.tensor_count, 1);
    assert_eq!(file.architecture(), Some("llama"));
    assert_eq!(file.name(), Some("toy"));
    assert_eq!(file.alignment, DEFAULT_ALIGNMENT);
    assert_eq!(file.get("llama.block_count"), Some(&MetadataValue::U32(2)));

    let tensor = file.tensor("token_embd.weight").unwrap();
    assert_eq!(tensor.dimensions, vec![4, 8]);
    assert_eq!(tensor.ggml_type, GgmlType::F32);
    assert_eq!(tensor.offset, 0);
    assert!(file.data_offset >= 24);
    assert_eq!(file.data_offset % file.alignment, 0);
}

#[test]
fn rejects_bad_magic() {
    let err = GgufFile::from_bytes(b"FFFF........").unwrap_err();
    assert!(matches!(err, PhalanxError::Gguf(GgufError::InvalidMagic { .. })));
}

#[test]
fn gguf_rejects_bad_magic_across_crate_boundary() {
    let err = GgufFile::from_bytes(b"NOTG........").unwrap_err();
    assert!(matches!(err, PhalanxError::Gguf(GgufError::InvalidMagic { .. })));
}

#[test]
fn rejects_unsupported_version() {
    let mut bytes = GgufBuilder::new().build();
    bytes[4..8].copy_from_slice(&99u32.to_le_bytes());
    let err = GgufFile::from_bytes(&bytes).unwrap_err();
    assert!(matches!(
        err,
        PhalanxError::Gguf(GgufError::UnsupportedVersion { version: 99, .. })
    ));
}

#[test]
fn custom_alignment_is_honoured() {
    let bytes = GgufBuilder::new()
        .alignment(64)
        .tensor(TensorInfo {
            name: "w".into(),
            dimensions: vec![1],
            ggml_type: GgmlType::F16,
            offset: 64,
        })
        .build();
    let file = GgufFile::from_bytes(&bytes).unwrap();
    assert_eq!(file.alignment, 64);
    assert_eq!(file.data_offset % 64, 0);
    assert_eq!(file.absolute_offset(file.tensor("w").unwrap()).unwrap(), file.data_offset + 64);
}

#[test]
fn rejects_unaligned_tensor_offset() {
    let bytes = GgufBuilder::new()
        .tensor(TensorInfo {
            name: "w".into(),
            dimensions: vec![1],
            ggml_type: GgmlType::F32,
            offset: 3,
        })
        .build();
    let err = GgufFile::from_bytes(&bytes).unwrap_err();
    assert!(matches!(
        err,
        PhalanxError::Gguf(GgufError::Invalid { context: "tensor offset", .. })
    ));
}

#[test]
fn rejects_alignment_not_multiple_of_eight() {
    let bytes = GgufBuilder::new().alignment(12).build();
    let err = GgufFile::from_bytes(&bytes).unwrap_err();
    assert!(matches!(
        err,
        PhalanxError::Gguf(GgufError::Invalid { context: "general.alignment", .. })
    ));
}

#[test]
fn truncated_header_is_unexpected_eof() {
    let err = GgufFile::from_bytes(b"GGUF\x03\x00").unwrap_err();
    assert!(matches!(err, PhalanxError::Gguf(GgufError::UnexpectedEof { context: "version" })));
}

#[test]
fn first_duplicate_key_wins() {
    let bytes = GgufBuilder::new().meta_u32("k", 1).meta_u32("k", 2).build();
    let file = GgufFile::from_bytes(&bytes).unwrap();
    assert_eq!(file.get("k"), Some(&MetadataValue::U32(1)));
    assert_eq!(file.get("missing"), None);
}

// ---------------------------------------------------------------------------
// Model configuration
// ---------------------------------------------------------------------------

fn llama_fixture() -> GgufBuilder {
    GgufBuilder::new()
        .architecture("llama")
        .name("toy-llama")
        .meta_u32(&keyed("llama", keys::BLOCK_COUNT), 32)
        .meta_u32(&keyed("llama", keys::CONTEXT_LENGTH), 2048)
        .meta_u32(&keyed("llama", keys::EMBEDDING_LENGTH), 4096)
        .meta_u32(&keyed("llama", keys::FEED_FORWARD_LENGTH), 11_008)
        .meta_u32(&keyed("llama", keys::ATTENTION_HEAD_COUNT), 32)
        .meta_u32(&keyed("llama", keys::ATTENTION_HEAD_COUNT_KV), 32)
        .meta_f32(&keyed("llama", keys::ATTENTION_LAYER_NORM_RMS_EPSILON), 1e-5)
        .meta_u32(&keyed("llama", keys::ROPE_DIMENSION_COUNT), 128)
        .meta_f32(&keyed("llama", keys::ROPE_FREQ_BASE), 10_000.0)
}

#[test]
fn from_gguf_loads_llama_7b_style_hparams() {
    let bytes = llama_fixture().build();
    let file = GgufFile::from_bytes(&bytes).unwrap();
    let cfg = ModelConfig::from_gguf(&file).unwrap();

    assert_eq!(cfg.architecture, Architecture::Llama);
    assert_eq!(cfg.name.as_deref(), Some("toy-llama"));
    assert_eq!(cfg.block_count, 32);
    assert_eq!(cfg.embedding_length, 4096);
    assert_eq!(cfg.feed_forward_length, 11_008);
    assert_eq!(cfg.attention.head_count, 32);
    assert_eq!(cfg.attention.head_count_kv, 32);
    assert_eq!(cfg.head_dim(), 128);
    assert!(!cfg.attention.is_gqa());
    assert!((f32::from_bits(cfg.rms_norm_eps) - 1e-5).abs() < 1e-12);
    assert!((f32::from_bits(cfg.rope.freq_base) - 10_000.0).abs() < f32::EPSILON);
}

#[test]
fn gqa_defaults_and_groups() {
    let bytes = GgufBuilder::new()
        .architecture("llama")
        .meta_u32(&keyed("llama", keys::BLOCK_COUNT), 32)
        .meta_u32(&keyed("llama", keys::CONTEXT_LENGTH), 8192)
        .meta_u32(&keyed("llama", keys::EMBEDDING_LENGTH), 4096)
        .meta_u32(&keyed("llama", keys::FEED_FORWARD_LENGTH), 14_336)
        .meta_u32(&keyed("llama", keys::ATTENTION_HEAD_COUNT), 32)
        .meta_u32(&keyed("llama", keys::ATTENTION_HEAD_COUNT_KV), 8)
        .meta_f32(&keyed("llama", keys::ATTENTION_LAYER_NORM_RMS_EPSILON), 1e-5)
        .meta_u32(&keyed("llama", keys::ROPE_DIMENSION_COUNT), 128)
        .build();

    let file = GgufFile::from_bytes(&bytes).unwrap();
    let cfg = ModelConfig::from_gguf(&file).unwrap();
    assert!(cfg.attention.is_gqa());
    assert_eq!(cfg.attention.gqa_groups(), 4);
    assert_eq!(cfg.kv_dim(), 8 * 128);
    assert_eq!(cfg.query_dim(), 4096);
    assert!(
        (f32::from_bits(cfg.rope.freq_base) - f32::from_bits(DEFAULT_ROPE_FREQ_BASE)).abs()
            < f32::EPSILON
    );
    assert_eq!(f32::from_bits(DEFAULT_ROPE_FREQ_BASE), 10_000.0);
}

#[test]
fn accepts_u64_counts() {
    let bytes = GgufBuilder::new()
        .architecture("llama")
        .meta_u64(&keyed("llama", keys::BLOCK_COUNT), 2)
        .meta_u64(&keyed("llama", keys::CONTEXT_LENGTH), 512)
        .meta_u64(&keyed("llama", keys::EMBEDDING_LENGTH), 256)
        .meta_u64(&keyed("llama", keys::FEED_FORWARD_LENGTH), 512)
        .meta_u64(&keyed("llama", keys::ATTENTION_HEAD_COUNT), 4)
        .meta_f32(&keyed("llama", keys::ATTENTION_LAYER_NORM_RMS_EPSILON), 1e-6)
        .meta_u64(&keyed("llama", keys::ROPE_DIMENSION_COUNT), 64)
        .build();
    let file = GgufFile::from_bytes(&bytes).unwrap();
    let cfg = ModelConfig::from_gguf(&file).unwrap();
    assert_eq!(cfg.block_count, 2);
    assert_eq!(cfg.head_dim(), 64);
}

#[test]
fn rejects_unsupported_architecture() {
    let bytes = GgufBuilder::new().architecture("qwen2").build();
    let file = GgufFile::from_bytes(&bytes).unwrap();
    let err = ModelConfig::from_gguf(&file).unwrap_err();
    assert!(matches!(err, PhalanxError::Model(ModelError::UnsupportedArchitecture { .. })));
}

#[test]
fn rejects_missing_architecture() {
    let bytes = GgufBuilder::new().meta_u32(&keyed("llama", keys::BLOCK_COUNT), 1).build();
    let file = GgufFile::from_bytes(&bytes).unwrap();
    let err = ModelConfig::from_gguf(&file).unwrap_err();
    assert!(matches!(err, PhalanxError::Model(ModelError::MissingArchitecture)));
}

#[test]
fn rejects_bad_gqa_ratio() {
    let bytes = GgufBuilder::new()
        .architecture("llama")
        .meta_u32(&keyed("llama", keys::BLOCK_COUNT), 2)
        .meta_u32(&keyed("llama", keys::CONTEXT_LENGTH), 128)
        .meta_u32(&keyed("llama", keys::EMBEDDING_LENGTH), 256)
        .meta_u32(&keyed("llama", keys::FEED_FORWARD_LENGTH), 512)
        .meta_u32(&keyed("llama", keys::ATTENTION_HEAD_COUNT), 8)
        .meta_u32(&keyed("llama", keys::ATTENTION_HEAD_COUNT_KV), 3)
        .meta_f32(&keyed("llama", keys::ATTENTION_LAYER_NORM_RMS_EPSILON), 1e-5)
        .meta_u32(&keyed("llama", keys::ROPE_DIMENSION_COUNT), 32)
        .build();
    let file = GgufFile::from_bytes(&bytes).unwrap();
    let err = ModelConfig::from_gguf(&file).unwrap_err();
    assert!(matches!(err, PhalanxError::Model(ModelError::InvalidConfig { .. })));
}

#[test]
fn legacy_rope_scale_becomes_linear_scaling() {
    let bytes = GgufBuilder::new()
        .architecture("llama")
        .meta_u32(&keyed("llama", keys::BLOCK_COUNT), 2)
        .meta_u32(&keyed("llama", keys::CONTEXT_LENGTH), 4096)
        .meta_u32(&keyed("llama", keys::EMBEDDING_LENGTH), 256)
        .meta_u32(&keyed("llama", keys::FEED_FORWARD_LENGTH), 512)
        .meta_u32(&keyed("llama", keys::ATTENTION_HEAD_COUNT), 4)
        .meta_f32(&keyed("llama", keys::ATTENTION_LAYER_NORM_RMS_EPSILON), 1e-5)
        .meta_u32(&keyed("llama", keys::ROPE_DIMENSION_COUNT), 64)
        .meta_f32(&keyed("llama", keys::ROPE_SCALE), 2.0)
        .build();
    let file = GgufFile::from_bytes(&bytes).unwrap();
    let cfg = ModelConfig::from_gguf(&file).unwrap();
    let scaling = cfg.rope.scaling.expect("scaling");
    assert_eq!(scaling.scaling_type, "linear");
    assert_eq!(scaling.factor, Some(2.0f32.to_bits()));
}

#[test]
fn f64_epsilon_is_narrowed_to_f32() {
    let bytes = GgufBuilder::new()
        .architecture("llama")
        .meta_u32(&keyed("llama", keys::BLOCK_COUNT), 2)
        .meta_u32(&keyed("llama", keys::CONTEXT_LENGTH), 128)
        .meta_u32(&keyed("llama", keys::EMBEDDING_LENGTH), 256)
        .meta_u32(&keyed("llama", keys::FEED_FORWARD_LENGTH), 512)
        .meta_u32(&keyed("llama", keys::ATTENTION_HEAD_COUNT), 4)
        .meta_f64(&keyed("llama", keys::ATTENTION_LAYER_NORM_RMS_EPSILON), 1e-5)
        .meta_u32(&keyed("llama", keys::ROPE_DIMENSION_COUNT), 64)
        .build();
    let file = GgufFile::from_bytes(&bytes).unwrap();
    let cfg = ModelConfig::from_gguf(&file).unwrap();
    assert_eq!(cfg.rms_norm_eps, (1e-5f64 as f32).to_bits());
}

#[test]
fn missing_required_key_is_named() {
    let bytes = GgufBuilder::new().architecture("llama").build();
    let file = GgufFile::from_bytes(&bytes).unwrap();
    let err = ModelConfig::from_gguf(&file).unwrap_err();
    match err {
        PhalanxError::Model(ModelError::MissingKey { key }) => assert_eq!(key, "llama.block_count"),
        other => panic!("unexpected {other:?}"),
    }
}

#[test]
fn count_that_does_not_fit_u32_is_invalid_type() {
    let bytes = GgufBuilder::new()
        .architecture("llama")
        .meta_u64(&keyed("llama", keys::BLOCK_COUNT), u64::from(u32::MAX) + 1)
        .build();
    let file = GgufFile::from_bytes(&bytes).unwrap();
    let err = ModelConfig::from_gguf(&file).unwrap_err();
    assert!(matches!(err, PhalanxError::Model(ModelError::InvalidType { .. })));
}

// ---------------------------------------------------------------------------
// Weights
// ---------------------------------------------------------------------------

fn fixture_f32_matrix() -> Vec<u8> {
    let header = GgufBuilder::new()
        .architecture("llama")
        .tensor(TensorInfo {
            name: "weight".into(),
            dimensions: vec![2, 2],
            ggml_type: GgmlType::F32,
            offset: 0,
        })
        .build();
    with_payload(header, &f32_payload(&[1.0, 2.0, 3.0, 4.0]))
}

#[test]
fn loads_f32_tensor_from_bytes() {
    let bytes = fixture_f32_matrix();
    let dir = GgufFile::from_bytes(&bytes).unwrap();
    assert_eq!(dir.tensor("weight").unwrap().ggml_type, GgmlType::F32);

    let set = WeightSet::from_bytes(bytes).unwrap();
    assert!(!set.is_mapped());
    let view = set.tensor("weight").unwrap();
    assert_eq!(view.data.len(), 16);
    assert!(!view.quant.is_quantized);

    match view.float_words().unwrap() {
        FloatWords::F32(words) => {
            assert_eq!(words.shape().as_slice(), &[2, 2]);
            let values: Vec<f32> = words.as_slice().iter().map(|w| f32::from_bits(*w)).collect();
            assert_eq!(values, vec![1.0, 2.0, 3.0, 4.0]);
        }
        FloatWords::F16(_) => panic!("expected f32 words"),
    }
}

#[test]
fn missing_tensor_errors() {
    let set = WeightSet::from_bytes(fixture_f32_matrix()).unwrap();
    let err = set.tensor("nope").unwrap_err();
    assert!(matches!(err, PhalanxError::Weights(WeightsError::TensorNotFound { .. })));
}

#[test]
fn truncated_payload_is_rejected() {
    let header = GgufBuilder::new()
        .tensor(TensorInfo {
            name: "weight".into(),
            dimensions: vec![2, 2],
            ggml_type: GgmlType::F32,
            offset: 0,
        })
        .build();
    let bytes = with_payload(header, &[0u8; 8]);
    let err = WeightSet::from_bytes(bytes).unwrap_err();
    assert!(matches!(err, PhalanxError::Weights(WeightsError::OutOfBounds { .. })));
}

#[test]
fn all_tensors_resolve_after_load() {
    let set = WeightSet::from_bytes(fixture_f32_matrix()).unwrap();
    let views = set.tensors().unwrap();
    assert_eq!(views.len(), 1);
    assert_eq!(views[0].name(), "weight");
    assert_eq!(views[0].ggml_type(), GgmlType::F32);
    assert_eq!(views[0].absolute_offset, set.gguf().data_offset);
    assert_eq!(set.file_len(), set.gguf().data_offset as usize + 16);
}

#[test]
fn quantized_payload_is_not_dequantized() {
    let header = GgufBuilder::new()
        .tensor(TensorInfo {
            name: "q".into(),
            dimensions: vec![32],
            ggml_type: GgmlType::Q4_0,
            offset: 0,
        })
        .build();
    let set = WeightSet::from_bytes(with_payload(header, &[0u8; 18])).unwrap();
    let view = set.tensor("q").unwrap();
    assert!(view.quant.is_quantized);
    let err = view.float_words().err().unwrap();
    assert!(matches!(
        err,
        PhalanxError::Weights(WeightsError::DequantNotImplemented { ggml_type: GgmlType::Q4_0, .. })
    ));
}

// ---------------------------------------------------------------------------
// Embedding table
// ---------------------------------------------------------------------------

fn fixture_embedding_gguf(vocab: u32, embd: u32) -> Vec<u8> {
    let mut values = Vec::new();
    for token in 0..vocab {
        for dim in 0..embd {
            values.push(token as f32 + dim as f32 / 100.0);
        }
    }
    let header = GgufBuilder::new()
        .architecture("llama")
        .meta_u32(&keyed("llama", keys::BLOCK_COUNT), 1)
        .meta_u32(&keyed("llama", keys::CONTEXT_LENGTH), 128)
        .meta_u32(&keyed("llama", keys::EMBEDDING_LENGTH), embd)
        .meta_u32(&keyed("llama", keys::FEED_FORWARD_LENGTH), embd * 2)
        .meta_u32(&keyed("llama", keys::ATTENTION_HEAD_COUNT), 2)
        .meta_f32(&keyed("llama", keys::ATTENTION_LAYER_NORM_RMS_EPSILON), 1e-5)
        .meta_u32(&keyed("llama", keys::ROPE_DIMENSION_COUNT), embd / 2)
        .meta_u32(&keyed("llama", keys::VOCAB_SIZE), vocab)
        .tensor(TensorInfo {
            name: TOKEN_EMBD_WEIGHT.into(),
            dimensions: vec![u64::from(embd), u64::from(vocab)],
            ggml_type: GgmlType::F32,
            offset: 0,
        })
        .build();
    with_payload(header, &f32_payload(&values))
}

/// The table a weight set's `token_embd.weight` materialises to.
fn table_from_weights(weights: &WeightSet, config: &ModelConfig) -> Result<EmbeddingTable<f32>, PhalanxError> {
    let (view, n_vocab, n_embd) = resolve_embedding(weights, config)?;
    let words = match view.float_words()? {
        FloatWords::F32(t) => t,
        FloatWords::F16(_) => panic!("fixture is f32"),
    };
    let values: Vec<f32> = words.as_slice().iter().map(|w| f32::from_bits(*w)).collect();
    let shape = phalanx::tensor::Shape::new(vec![n_vocab, n_embd])?;
    EmbeddingTable::from_tensor(Tensor::from_vec(values, shape)?)
}

#[test]
fn from_weights_gathers_correct_rows() {
    let weights = WeightSet::from_bytes(fixture_embedding_gguf(4, 4)).unwrap();
    let config = ModelConfig::from_gguf(weights.gguf()).unwrap();
    let table = table_from_weights(&weights, &config).unwrap();

    assert_eq!(table.vocab_size(), 4);
    assert_eq!(table.embedding_length(), 4);
    assert_eq!(table.weight().shape().as_slice(), &[4, 4]);

    let row1 = table.forward_one(1).unwrap();
    assert_eq!(row1.shape().as_slice(), &[4]);
    assert!((row1.as_slice()[0] - 1.0).abs() < 1e-6);
    assert!((row1.as_slice()[1] - 1.01).abs() < 1e-6);

    let batch = table.forward(&[0, 2, 3]).unwrap();
    assert_eq!(batch.shape().as_slice(), &[3, 4]);
    assert!((batch.get(&[0, 0]).unwrap() - 0.0).abs() < 1e-6);
    assert!((batch.get(&[1, 0]).unwrap() - 2.0).abs() < 1e-6);
    assert!((batch.get(&[2, 2]).unwrap() - 3.02).abs() < 1e-6);
}

#[test]
fn squeezes_trailing_ones() {
    let header = GgufBuilder::new()
        .architecture("llama")
        .meta_u32(&keyed("llama", keys::BLOCK_COUNT), 1)
        .meta_u32(&keyed("llama", keys::CONTEXT_LENGTH), 128)
        .meta_u32(&keyed("llama", keys::EMBEDDING_LENGTH), 4)
        .meta_u32(&keyed("llama", keys::FEED_FORWARD_LENGTH), 8)
        .meta_u32(&keyed("llama", keys::ATTENTION_HEAD_COUNT), 2)
        .meta_f32(&keyed("llama", keys::ATTENTION_LAYER_NORM_RMS_EPSILON), 1e-5)
        .meta_u32(&keyed("llama", keys::ROPE_DIMENSION_COUNT), 2)
        .tensor(TensorInfo {
            name: TOKEN_EMBD_WEIGHT.into(),
            dimensions: vec![4, 2, 1, 1],
            ggml_type: GgmlType::F32,
            offset: 0,
        })
        .build();
    let bytes = with_payload(header, &f32_payload(&[0.0, 0.01, 0.02, 0.03, 1.0, 1.01, 1.02, 1.03]));
    let weights = WeightSet::from_bytes(bytes).unwrap();
    let config = ModelConfig::from_gguf(weights.gguf()).unwrap();
    let table = table_from_weights(&weights, &config).unwrap();
    assert!((table.forward_one(1).unwrap().as_slice()[0] - 1.0).abs() < 1e-6);
}

#[test]
fn missing_weight_errors() {
    let bytes = GgufBuilder::new()
        .architecture("llama")
        .meta_u32(&keyed("llama", keys::BLOCK_COUNT), 1)
        .meta_u32(&keyed("llama", keys::CONTEXT_LENGTH), 128)
        .meta_u32(&keyed("llama", keys::EMBEDDING_LENGTH), 4)
        .meta_u32(&keyed("llama", keys::FEED_FORWARD_LENGTH), 8)
        .meta_u32(&keyed("llama", keys::ATTENTION_HEAD_COUNT), 2)
        .meta_f32(&keyed("llama", keys::ATTENTION_LAYER_NORM_RMS_EPSILON), 1e-5)
        .meta_u32(&keyed("llama", keys::ROPE_DIMENSION_COUNT), 2)
        .build();
    let weights = WeightSet::from_bytes(bytes).unwrap();
    let config = ModelConfig::from_gguf(weights.gguf()).unwrap();
    let err = resolve_embedding(&weights, &config).err().unwrap();
    assert!(matches!(
        err,
        PhalanxError::Layers(LayersError::MissingWeight { name: TOKEN_EMBD_WEIGHT })
    ));
}

// ---------------------------------------------------------------------------
// Tokenizer from GGUF
// ---------------------------------------------------------------------------

#[test]
fn from_gguf_loads_specials_and_round_trips() {
    let bytes = GgufBuilder::new()
        .architecture("llama")
        .meta_string(tok_keys::MODEL, "llama")
        .meta_array_string(tok_keys::TOKENS, &["<bos>", "<eos>", "▁Hello", "▁world", "!"])
        .meta_array_i32(tok_keys::TOKEN_TYPE, &[3, 3, 1, 1, 1])
        .meta_u32(tok_keys::BOS_TOKEN_ID, 0)
        .meta_u32(tok_keys::EOS_TOKEN_ID, 1)
        .build();

    let file = GgufFile::from_bytes(&bytes).unwrap();
    let tok = Tokenizer::from_gguf(&file).unwrap();

    assert_eq!(tok.model(), TokenizerModel::Llama);
    assert_eq!(tok.special().bos, Some(0));
    assert_eq!(tok.special().eos, Some(1));
    assert_eq!(tok.vocab().len(), 5);

    let ids = tok.encode("Hello world!", EncodeOptions { add_bos: true, add_eos: false }).unwrap();
    assert_eq!(ids, vec![0, 2, 3, 4]);
    assert_eq!(tok.decode(&ids).unwrap(), " Hello world!");
}

#[test]
fn missing_tokens_key_errors() {
    let bytes = GgufBuilder::new().meta_string(tok_keys::MODEL, "llama").build();
    let file = GgufFile::from_bytes(&bytes).unwrap();
    let err = Tokenizer::from_gguf(&file).unwrap_err();
    assert!(matches!(
        err,
        PhalanxError::Tokenizer(TokenizerError::MissingKey { key: tok_keys::TOKENS })
    ));
}

#[test]
fn special_id_outside_vocab_is_rejected() {
    let bytes = GgufBuilder::new()
        .meta_string(tok_keys::MODEL, "llama")
        .meta_array_string(tok_keys::TOKENS, &["a", "b"])
        .meta_u32(tok_keys::EOS_TOKEN_ID, 2)
        .build();
    let file = GgufFile::from_bytes(&bytes).unwrap();
    let err = Tokenizer::from_gguf(&file).unwrap_err();
    assert!(matches!(
        err,
        PhalanxError::Tokenizer(TokenizerError::InvalidSpecialToken { name: "eos", id: 2, vocab_size: 2 })
    ));
}

#[test]
fn type_table_length_mismatch_is_rejected() {
    let bytes = GgufBuilder::new()
        .meta_string(tok_keys::MODEL, "llama")
        .meta_array_string(tok_keys::TOKENS, &["a", "b"])
        .meta_array_i32(tok_keys::TOKEN_TYPE, &[1])
        .build();
    let file = GgufFile::from_bytes(&bytes).unwrap();
    let err = Tokenizer::from_gguf(&file).unwrap_err();
    assert!(matches!(
        err,
        PhalanxError::Tokenizer(TokenizerError::LengthMismatch { expected: 2, got: 1, .. })
    ));
}

#[test]
fn merges_from_gguf_drive_bpe() {
    let bytes = GgufBuilder::new()
        .meta_string(tok_keys::MODEL, "gpt2")
        .meta_array_string(tok_keys::TOKENS, &["t", "h", "th", "e", "the"])
        .meta_array_string(tok_keys::MERGES, &["t h", "th e", "bad"])
        .build();
    let file = GgufFile::from_bytes(&bytes).unwrap();
    let tok = Tokenizer::from_gguf(&file).unwrap();
    assert_eq!(tok.merges().len(), 2);
    let ids = tok.encode("the", EncodeOptions { add_bos: false, add_eos: false }).unwrap();
    assert_eq!(ids, vec![4]);
}

#[test]
fn first_failing_tensor_names_the_error() {
    let header = GgufBuilder::new()
        .tensor(TensorInfo { name: "ok".into(), dimensions: vec![2], ggml_type: GgmlType::F32, offset: 0 })
        .tensor(TensorInfo { name: "cut".into(), dimensions: vec![4], ggml_type: GgmlType::F32, offset: 32 })
        .tensor(TensorInfo { name: "odd".into(), dimensions: vec![3], ggml_type: GgmlType::Q4_0, offset: 0 })
        .build();
    let bytes = with_payload(header, &[0u8; 40]);
    let err = WeightSet::from_bytes(bytes).unwrap_err();
    match err {
        PhalanxError::Weights(WeightsError::OutOfBounds { name, .. }) => assert_eq!(name, "cut"),
        other => panic!("expected OutOfBounds for 'cut', got {other:?}"),
    }
}

#[test]
fn loaded_config_passes_the_hand_built_checks() {
    let bytes = llama_fixture().build();
    let file = GgufFile::from_bytes(&bytes).unwrap();
    let cfg = ModelConfig::from_gguf(&file).unwrap();
    assert_eq!(ModelConfig::from_parts(cfg.clone()).unwrap(), cfg);
}
