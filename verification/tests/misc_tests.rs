use phalanx::tokenizer::TokenType;
use phalanx::utils::directive_is_safe;
use phalanx::gguf::align_offset;
use phalanx::utils::parse_filter;
use phalanx::{
    attn_k_weight_name, attn_norm_weight_name, attn_output_weight_name, attn_q_weight_name,
    attn_v_weight_name, ffn_down_weight_name, ffn_gate_weight_name, ffn_norm_weight_name,
    ffn_up_weight_name, Architecture, Attention, AttentionConfig, EmbeddingTable, GgmlType,
    LayersError, LogConfig, ModelConfig, ModelError, PhalanxError, QuantMeta, RmsNorm, Rope,
    RopeConfig, RopeScaling, Shape, SwiGlu, Tensor, TensorError, WeightsError, RUNTIME_NAME, VERSION,
};

const ONE_F32: u32 = 0x3F80_0000;
const TEN_THOUSAND_F32: u32 = 0x461C_4000;
const EPS_F32: u32 = 0x3586_37BD; // 1e-6

fn ones(dims: Vec<usize>) -> Tensor<f32> {
    Tensor::full(dims, 1.0f32).unwrap()
}

fn toy_model_config(head_dim: u32, rotary: u32, context: u32) -> ModelConfig {
    ModelConfig::from_parts(ModelConfig {
        architecture: Architecture::Llama,
        name: None,
        vocab_size: None,
        context_length: context,
        embedding_length: 2 * head_dim,
        feed_forward_length: 16,
        block_count: 1,
        attention: AttentionConfig {
            head_count: 2,
            head_count_kv: 2,
            key_length: head_dim,
            value_length: head_dim,
        },
        rope: RopeConfig { dimension_count: rotary, freq_base: TEN_THOUSAND_F32, scaling: None },
        rms_norm_eps: 0x3727_C5AC,
    })
    .unwrap()
}

fn toy_attention(heads: usize, kv: usize, head_dim: usize) -> Attention<f32> {
    let hidden = heads * head_dim;
    let q_out = heads * head_dim;
    let kv_out = kv * head_dim;
    Attention::from_tensors(
        ones(vec![q_out, hidden]),
        ones(vec![kv_out, hidden]),
        ones(vec![kv_out, hidden]),
        ones(vec![hidden, q_out]),
        heads,
        kv,
        head_dim,
    )
    .unwrap()
}

#[test]
fn config_display_includes_message() {
    let err = PhalanxError::config("missing model path");
    assert_eq!(err.to_string(), "configuration error: missing model path");
}

#[test]
fn io_error_converts_via_from() {
    let io_err = std::io::Error::new(std::io::ErrorKind::NotFound, "gone");
    let err: PhalanxError = io_err.into();
    assert!(matches!(err, PhalanxError::Io(_)));
    assert!(err.to_string().contains("gone"));
}

#[test]
fn internal_and_tensor_errors_have_display_text() {
    assert_eq!(PhalanxError::internal("oops").to_string(), "internal error: oops");
    let err = PhalanxError::Tensor(TensorError::RankMismatch { expected: 2, got: 3 });
    assert_eq!(err.to_string(), "rank mismatch: expected 2, got 3");
}

#[test]
fn align_offset_rounds_up() {
    assert_eq!(align_offset(0, 32), 0);
    assert_eq!(align_offset(1, 32), 32);
    assert_eq!(align_offset(32, 32), 32);
    assert_eq!(align_offset(33, 32), 64);
}

#[test]
fn ggml_type_round_trips_common_tags() {
    assert_eq!(GgmlType::from_u32(0), GgmlType::F32);
    assert_eq!(GgmlType::from_u32(12), GgmlType::Q4K);
    assert!(matches!(GgmlType::from_u32(999), GgmlType::Unknown(999)));
}

#[test]
fn gguf_type_names_are_exported() {
    assert_eq!(GgmlType::Q4K.name(), "q4_k");
}

#[test]
fn attention_weight_name_helpers() {
    assert_eq!(attn_q_weight_name(0), "blk.0.attn_q.weight");
    assert_eq!(attn_k_weight_name(1), "blk.1.attn_k.weight");
    assert_eq!(attn_v_weight_name(2), "blk.2.attn_v.weight");
    assert_eq!(attn_output_weight_name(3), "blk.3.attn_output.weight");
}

#[test]
fn rmsnorm_weight_name_helpers() {
    assert_eq!(attn_norm_weight_name(0), "blk.0.attn_norm.weight");
    assert_eq!(ffn_norm_weight_name(3), "blk.3.ffn_norm.weight");
}

#[test]
fn swiglu_weight_name_helpers() {
    assert_eq!(ffn_gate_weight_name(0), "blk.0.ffn_gate.weight");
    assert_eq!(ffn_up_weight_name(2), "blk.2.ffn_up.weight");
    assert_eq!(ffn_down_weight_name(1), "blk.1.ffn_down.weight");
}

#[test]
fn weight_names_use_decimal_layer_numbers() {
    assert_eq!(attn_q_weight_name(12), "blk.12.attn_q.weight");
    assert_eq!(ffn_down_weight_name(105), "blk.105.ffn_down.weight");
}

#[test]
fn version_is_semver_like() {
    assert!(!VERSION.is_empty());
    assert!(VERSION.contains('.'));
}

#[test]
fn public_version_constant_is_exported() {
    assert_eq!(VERSION, "0.1.0");
}

#[test]
fn runtime_name_is_stable() {
    assert_eq!(RUNTIME_NAME, "Phalanx Runtime");
}

#[test]
fn public_runtime_name_is_exported() {
    assert_eq!(RUNTIME_NAME, "Phalanx Runtime");
}

#[test]
fn parse_llama() {
    assert_eq!(Architecture::parse("llama"), Some(Architecture::Llama));
    assert_eq!(Architecture::parse("qwen2"), None);
}

#[test]
fn default_config_is_cli_friendly() {
    let config = LogConfig::default();
    assert!(config.filter.is_none());
    assert!(!config.show_target);
}

#[test]
fn invalid_filter_returns_config_error() {
    let result = parse_filter("this is not[[[valid");
    assert!(matches!(result, Err(PhalanxError::Config(_))));
    if let Err(PhalanxError::Config(message)) = result {
        assert!(message.starts_with("invalid log filter 'this is not[[[valid'"));
    }
}

#[test]
fn plain_level_filter_parses() {
    assert!(parse_filter("info").is_ok());
    assert!(parse_filter("phalanx=debug,warn").is_ok());
}

#[test]
fn f32_and_q4_0_sizes() {
    let f32 = QuantMeta::for_type(GgmlType::F32).unwrap();
    assert_eq!(f32.nbytes(8, "t").unwrap(), 32);

    let q4 = QuantMeta::for_type(GgmlType::Q4_0).unwrap();
    assert_eq!(q4.block_size, 32);
    assert_eq!(q4.type_size, 18);
    assert_eq!(q4.nbytes(64, "t").unwrap(), 36);
    assert!(q4.nbytes(30, "t").is_err());
}

#[test]
fn q4k_superblock() {
    let q = QuantMeta::for_type(GgmlType::Q4K).unwrap();
    assert_eq!(q.block_size, 256);
    assert_eq!(q.type_size, 144);
    assert_eq!(q.nbytes(256, "w").unwrap(), 144);
}

#[test]
fn quant_meta_q4k_is_exported() {
    let meta = QuantMeta::for_type(GgmlType::Q4K).unwrap();
    assert_eq!(meta.block_size, 256);
    assert_eq!(meta.type_size, 144);
    assert!(meta.is_quantized);
}

#[test]
fn unknown_type_has_no_layout() {
    let err = QuantMeta::for_type(GgmlType::Unknown(77)).unwrap_err();
    assert!(matches!(err, WeightsError::UnsupportedType { .. }));
}

#[test]
fn config_errors_are_matchable_across_crate_boundary() {
    let err = PhalanxError::config("bad hyperparameter");
    match err {
        PhalanxError::Config(message) => assert!(message.contains("hyperparameter")),
        other => panic!("expected Config variant, got {other:?}"),
    }
}

#[test]
fn reshape_errors_nest_under_phalanx_error() {
    let a = ones(vec![2, 2]);
    let err = a.reshape(vec![3, 3]).unwrap_err();
    assert!(matches!(
        err,
        PhalanxError::Tensor(TensorError::DataLengthMismatch { expected: 9, got: 4, .. })
    ));
}

#[test]
fn model_errors_nest_under_phalanx_error() {
    let err = PhalanxError::Model(ModelError::UnsupportedArchitecture { architecture: "qwen2".into() });
    assert!(matches!(err, PhalanxError::Model(ModelError::UnsupportedArchitecture { .. })));
    assert_eq!(Architecture::Llama.as_str(), "llama");
    let _ = ModelConfig::from_parts;
}

#[test]
fn layers_errors_nest_under_phalanx_error() {
    let err = PhalanxError::Layers(LayersError::TokenOutOfRange { id: 9, vocab_size: 2 });
    assert!(matches!(err, PhalanxError::Layers(LayersError::TokenOutOfRange { .. })));
}

#[test]
fn embedding_gather_works_across_crate_boundary() {
    let table = EmbeddingTable::from_tensor(
        Tensor::from_vec(vec![1.0f32, 2.0, 3.0, 4.0], Shape::new(vec![2, 2]).unwrap()).unwrap(),
    )
    .unwrap();
    let out = table.forward(&[1, 0]).unwrap();
    assert_eq!(out.as_slice(), &[3.0, 4.0, 1.0, 2.0]);
}

#[test]
fn out_of_range_token_errors() {
    let table = EmbeddingTable::from_tensor(Tensor::full(vec![2, 3], 0.0f32).unwrap()).unwrap();
    let err = table.forward(&[0, 2]).unwrap_err();
    assert!(matches!(err, PhalanxError::Layers(LayersError::TokenOutOfRange { id: 2, .. })));
}

#[test]
fn empty_sequence_yields_zero_rows() {
    let table = EmbeddingTable::from_tensor(ones(vec![3, 2])).unwrap();
    let out = table.forward(&[]).unwrap();
    assert_eq!(out.shape().as_slice(), &[0, 2]);
    assert_eq!(out.numel(), 0);
}

#[test]
fn forward_one_returns_a_row() {
    let table = EmbeddingTable::from_tensor(
        Tensor::from_vec(vec![1u32, 2, 3, 4, 5, 6], Shape::new(vec![3, 2]).unwrap()).unwrap(),
    )
    .unwrap();
    assert_eq!(table.vocab_size(), 3);
    assert_eq!(table.embedding_length(), 2);
    assert_eq!(table.forward_one(2).unwrap().as_slice(), &[5, 6]);
    assert!(table.forward_one(3).is_err());
}

#[test]
fn embedding_needs_rank_two() {
    let err = EmbeddingTable::from_tensor(ones(vec![4])).unwrap_err();
    assert!(matches!(err, PhalanxError::Layers(LayersError::InvalidWeightShape { .. })));
}

#[test]
fn attention_accepts_sequence_and_batch_layouts() {
    let attn = toy_attention(4, 2, 8);
    assert_eq!(attn.activation_layout(&[2, 5, 32]).unwrap(), (2, 5));
    assert_eq!(toy_attention(4, 4, 8).activation_layout(&[6, 32]).unwrap(), (1, 6));
}

#[test]
fn attention_rejects_wrong_last_dim() {
    let attn = toy_attention(4, 2, 8);
    let err = attn.activation_layout(&[2, 4]).unwrap_err();
    assert!(matches!(err, PhalanxError::Layers(LayersError::InvalidActivationShape { .. })));
}

#[test]
fn attention_rejects_indivisible_heads() {
    let err = Attention::from_tensors(
        ones(vec![24, 24]),
        ones(vec![16, 24]),
        ones(vec![16, 24]),
        ones(vec![24, 24]),
        3,
        2,
        8,
    )
    .unwrap_err();
    assert!(matches!(err, PhalanxError::Layers(LayersError::InvalidWeightShape { .. })));
}

#[test]
fn rmsnorm_accepts_matching_last_dim() {
    let norm = RmsNorm::from_tensor(ones(vec![4]), EPS_F32).unwrap();
    assert_eq!(norm.hidden_size(), 4);
    assert_eq!(norm.eps(), EPS_F32);
    assert!(norm.check_input(&[2, 3, 4]).is_ok());
}

#[test]
fn rmsnorm_rejects_wrong_last_dim() {
    let norm = RmsNorm::from_tensor(ones(vec![4]), EPS_F32).unwrap();
    let err = norm.check_input(&[2, 3]).unwrap_err();
    assert!(matches!(err, PhalanxError::Layers(LayersError::InvalidActivationShape { .. })));
}

#[test]
fn rejects_non_positive_eps() {
    let err = RmsNorm::from_tensor(ones(vec![4]), 0.0f32.to_bits()).unwrap_err();
    assert!(matches!(err, PhalanxError::Layers(LayersError::ConfigMismatch { .. })));
}

#[test]
fn swiglu_accepts_matching_last_dim() {
    let ffn = SwiGlu::from_tensors(ones(vec![16, 8]), ones(vec![16, 8]), ones(vec![8, 16])).unwrap();
    assert_eq!(ffn.hidden_size(), 8);
    assert_eq!(ffn.intermediate_size(), 16);
    assert!(ffn.check_input(&[2, 4, 8]).is_ok());
}

#[test]
fn swiglu_rejects_wrong_last_dim() {
    let ffn = SwiGlu::from_tensors(ones(vec![16, 8]), ones(vec![16, 8]), ones(vec![8, 16])).unwrap();
    let err = ffn.check_input(&[2, 4]).unwrap_err();
    assert!(matches!(err, PhalanxError::Layers(LayersError::InvalidActivationShape { .. })));
}

#[test]
fn swiglu_rejects_mismatched_weights() {
    let err = SwiGlu::from_tensors(ones(vec![16, 8]), ones(vec![12, 8]), ones(vec![8, 16])).unwrap_err();
    assert!(matches!(err, PhalanxError::Layers(LayersError::InvalidWeightShape { .. })));
}

#[test]
fn rope_from_config_uses_key_length_and_context() {
    let rope = Rope::from_config(&toy_model_config(4, 4, 16)).unwrap();
    assert_eq!(rope.rotary_dim(), 4);
    assert_eq!(rope.head_dim(), 4);
    assert_eq!(rope.max_position(), 16);
    assert_eq!(rope.freq_base(), TEN_THOUSAND_F32);
    assert_eq!(rope.scale(), ONE_F32);
}

#[test]
fn rejects_position_past_cache() {
    let rope = Rope::from_config(&toy_model_config(4, 4, 4)).unwrap();
    let err = rope.check_input(&[1, 4], 4).unwrap_err();
    assert!(matches!(err, PhalanxError::Layers(LayersError::RopePositionOutOfRange { .. })));
    let err = rope.check_input(&[2, 4], 3).unwrap_err();
    assert!(matches!(
        err,
        PhalanxError::Layers(LayersError::RopePositionOutOfRange { position: 4, max_position: 4 })
    ));
    assert!(rope.check_input(&[1, 4], 3).is_ok());
}

#[test]
fn rejects_yarn_scaling() {
    let err = Rope::from_rope_config(
        &RopeConfig {
            dimension_count: 4,
            freq_base: TEN_THOUSAND_F32,
            scaling: Some(RopeScaling { scaling_type: "yarn".into(), factor: Some(2.0f32.to_bits()) }),
        },
        4,
        8,
    )
    .unwrap_err();
    assert!(matches!(err, PhalanxError::Layers(LayersError::InvalidActivationShape { .. })));
}

#[test]
fn linear_scaling_factor_is_kept() {
    let rope = Rope::from_rope_config(
        &RopeConfig {
            dimension_count: 4,
            freq_base: TEN_THOUSAND_F32,
            scaling: Some(RopeScaling { scaling_type: "linear".into(), factor: Some(2.0f32.to_bits()) }),
        },
        8,
        32,
    )
    .unwrap();
    assert_eq!(rope.scale(), 2.0f32.to_bits());
    assert_eq!(rope.rotary_dim(), 4);
}

#[test]
fn rope_rejects_odd_rotary_dim() {
    let err = Rope::from_rope_config(
        &RopeConfig { dimension_count: 3, freq_base: TEN_THOUSAND_F32, scaling: None },
        4,
        8,
    )
    .unwrap_err();
    assert!(matches!(err, PhalanxError::Layers(LayersError::InvalidActivationShape { .. })));
}

#[test]
fn layer_errors_name_the_offending_sizes() {
    let attn = toy_attention(4, 2, 8);
    let err = attn.activation_layout(&[2, 4]).unwrap_err();
    assert_eq!(err.to_string(), "invalid activation shape for attention: last dim 4 != configured hidden_size 32");
    let err = Attention::from_tensors(
        ones(vec![24, 24]),
        ones(vec![16, 24]),
        ones(vec![16, 24]),
        ones(vec![24, 24]),
        3,
        2,
        8,
    )
    .unwrap_err();
    assert_eq!(
        err.to_string(),
        "invalid shape for weight 'attn_q.weight': num_heads (3) must be divisible by num_kv_heads (2)"
    );
    let rope = Rope::from_config(&toy_model_config(4, 4, 16)).unwrap();
    let err = rope.check_input(&[3], 0).unwrap_err();
    assert_eq!(
        err.to_string(),
        "invalid activation shape for rope: expected rank 2 [seq, head_dim] or rank 3 [seq, heads, head_dim], got rank 1 ([3])"
    );
}

#[test]
fn filter_strings_that_the_parser_can_cut_are_told_apart() {
    assert!(directive_is_safe(" info"));
    assert!(directive_is_safe("é=info"));
    assert!(directive_is_safe("phalanx=debug,warn"));
    assert!(!directive_is_safe(" é=info"));
    assert!(!directive_is_safe("info, é=warn"));
}

#[test]
fn token_types_carry_their_gguf_tags() {
    let all = [
        TokenType::Normal,
        TokenType::Unknown,
        TokenType::Control,
        TokenType::UserDefined,
        TokenType::Unused,
        TokenType::Byte,
    ];
    for (k, t) in all.iter().enumerate() {
        assert_eq!(t.tag(), k as i32 + 1);
        assert_eq!(TokenType::from_i32(t.tag()), *t);
    }
    assert_eq!(TokenType::from_i32(2).tag(), 2);
}

#[test]
fn known_type_names_are_distinct() {
    let mut names = Vec::new();
    for tag in 0..40u32 {
        let t = GgmlType::from_u32(tag);
        if !matches!(t, GgmlType::Unknown(_)) {
            assert_ne!(t.name(), "unknown");
            assert!(!names.contains(&t.name()));
            names.push(t.name());
        } else {
            assert_eq!(t.name(), "unknown");
        }
    }
    assert_eq!(names.len(), 32);
}

#[test]
fn kernel_shape_checks_report_typed_errors() {
    let a = Shape::new(vec![2, 3]).unwrap();
    let b = Shape::new(vec![3, 4]).unwrap();
    assert_eq!(a.matmul_dims(&b).unwrap(), (2, 3, 4));
    let err = b.matmul_dims(&a).unwrap_err();
    assert_eq!(err.to_string(), "matmul incompatible shapes: [3, 4] \u{d7} [2, 3] (inner dims must match)");
    let c = Shape::new(vec![2, 3, 1]).unwrap();
    assert!(matches!(
        c.matmul_dims(&a),
        Err(PhalanxError::Tensor(TensorError::RankMismatch { expected: 2, got: 3 }))
    ));
    assert!(a.check_same(&Shape::new(vec![2, 3]).unwrap()).is_ok());
    let err = a.check_same(&b).unwrap_err();
    assert_eq!(err.to_string(), "shape mismatch: expected [2, 3], got [3, 4]");
}

#[test]
fn unsupported_rope_scaling_is_named() {
    let err = Rope::from_rope_config(
        &RopeConfig {
            dimension_count: 4,
            freq_base: TEN_THOUSAND_F32,
            scaling: Some(RopeScaling { scaling_type: "yarn".into(), factor: None }),
        },
        4,
        8,
    )
    .unwrap_err();
    assert_eq!(
        err.to_string(),
        "invalid activation shape for rope: unsupported rope.scaling.type 'yarn' (Phase 8 supports linear only)"
    );
}
