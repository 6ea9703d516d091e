use phalanx::tokenizer::decode::{parse_byte_piece, piece_to_bytes};
use phalanx::tokenizer::encode::{encode_bpe, encode_greedy, prepare_sentencepiece_text};
use phalanx::tokenizer::{
    DecodeOptions, EncodeOptions, MergeRule, SpecialTokens, TokenType, Tokenizer, TokenizerError,
    TokenizerModel, Vocabulary,
};
use phalanx::PhalanxError;

fn no_specials() -> EncodeOptions {
    EncodeOptions { add_bos: false, add_eos: false }
}

fn hello_vocab() -> Vocabulary {
    Vocabulary::new(
        vec![
            "<bos>".into(),
            "<eos>".into(),
            "▁Hello".into(),
            "▁world".into(),
            "!".into(),
        ],
        None,
        Some(vec![
            TokenType::Control,
            TokenType::Control,
            TokenType::Normal,
            TokenType::Normal,
            TokenType::Normal,
        ]),
    )
    .unwrap()
}

#[test]
fn sentencepiece_marker_becomes_space() {
    let bytes = piece_to_bytes("▁Hi");
    assert_eq!(String::from_utf8(bytes).unwrap(), " Hi");
}

#[test]
fn byte_piece_decodes() {
    assert_eq!(piece_to_bytes("<0x0A>"), vec![0x0A]);
    assert_eq!(piece_to_bytes("<0xFF>"), vec![0xFF]);
}

#[test]
fn byte_piece_shapes_that_are_not_bytes_stay_text() {
    assert_eq!(parse_byte_piece("<0x0A>"), Some(0x0A));
    assert_eq!(parse_byte_piece("<0xA>"), None);
    assert_eq!(parse_byte_piece("<0xZZ>"), None);
    assert_eq!(parse_byte_piece("0x0A"), None);
    assert_eq!(piece_to_bytes("<0xZZ>"), b"<0xZZ>".to_vec());
}

#[test]
fn parse_merge_line() {
    let rule = MergeRule::parse("t h").unwrap();
    assert_eq!(rule.left, "t");
    assert_eq!(rule.right, "h");
    assert_eq!(rule.merged(), "th");
}

#[test]
fn merge_line_without_space_is_rejected() {
    assert!(MergeRule::parse("th").is_none());
    let rule = MergeRule::parse("a b c").unwrap();
    assert_eq!(rule.left, "a");
    assert_eq!(rule.right, "b c");
}

#[test]
fn sentencepiece_text_prefixes_and_replaces_spaces() {
    let chars: String = prepare_sentencepiece_text("a b").into_iter().collect();
    assert_eq!(chars, "▁a▁b");
    let already: String = prepare_sentencepiece_text(" x").into_iter().collect();
    assert_eq!(already, "▁x");
}

#[test]
fn greedy_round_trip_hello_world() {
    let tok = Tokenizer::from_parts(
        TokenizerModel::Llama,
        hello_vocab(),
        SpecialTokens { bos: Some(0), eos: Some(1), ..SpecialTokens::default() },
        Vec::new(),
    );

    let ids = tok.encode("Hello world!", EncodeOptions { add_bos: true, add_eos: false }).unwrap();
    assert_eq!(ids, vec![0, 2, 3, 4]);
    assert_eq!(tok.decode(&ids).unwrap(), " Hello world!");
}

#[test]
fn greedy_appends_eos_when_asked() {
    let tok = Tokenizer::from_parts(
        TokenizerModel::Llama,
        hello_vocab(),
        SpecialTokens { bos: Some(0), eos: Some(1), ..SpecialTokens::default() },
        Vec::new(),
    );
    let ids = tok.encode("Hello", EncodeOptions { add_bos: false, add_eos: true }).unwrap();
    assert_eq!(ids, vec![2, 1]);
}

#[test]
fn greedy_reports_unencodable_text() {
    let err = encode_greedy(&hello_vocab(), "Hello?").unwrap_err();
    assert!(matches!(err, PhalanxError::Tokenizer(TokenizerError::EncodeFailure { .. })));
}

#[test]
fn bpe_merges_characters() {
    let vocab = Vocabulary::new(
        vec!["t".into(), "h".into(), "th".into(), "e".into(), "the".into()],
        None,
        None,
    )
    .unwrap();
    let merges = vec![
        MergeRule { left: "t".into(), right: "h".into() },
        MergeRule { left: "th".into(), right: "e".into() },
    ];
    let tok = Tokenizer::from_parts(TokenizerModel::Gpt2, vocab, SpecialTokens::default(), merges);

    let ids = tok.encode("the", no_specials()).unwrap();
    assert_eq!(ids, vec![4]);
    assert_eq!(tok.decode(&ids).unwrap(), "the");
}

#[test]
fn bpe_without_merges_spells_characters() {
    let vocab = Vocabulary::new(vec!["a".into(), "b".into()], None, None).unwrap();
    assert_eq!(encode_bpe(&vocab, &[], "abba").unwrap(), vec![0, 1, 1, 0]);
    let err = encode_bpe(&vocab, &[], "abc").unwrap_err();
    assert!(matches!(err, PhalanxError::Tokenizer(TokenizerError::EncodeFailure { .. })));
}

#[test]
fn bpe_prefers_lowest_rank_merge() {
    let vocab = Vocabulary::new(
        vec!["a".into(), "b".into(), "c".into(), "ab".into(), "bc".into()],
        None,
        None,
    )
    .unwrap();
    let merges = vec![
        MergeRule { left: "b".into(), right: "c".into() },
        MergeRule { left: "a".into(), right: "b".into() },
    ];
    assert_eq!(encode_bpe(&vocab, &merges, "abc").unwrap(), vec![0, 4]);
}

#[test]
fn tokenizer_encode_decode_round_trip_across_crate_boundary() {
    let vocab = Vocabulary::new(vec!["▁hi".into(), "!".into()], None, None).unwrap();
    let tok = Tokenizer::from_parts(TokenizerModel::Llama, vocab, SpecialTokens::default(), Vec::new());
    let ids = tok.encode("hi!", no_specials()).unwrap();
    assert_eq!(ids, vec![0, 1]);
    assert_eq!(tok.decode(&ids).unwrap(), " hi!");
}

#[test]
fn decode_skips_specials_unless_asked() {
    let tok = Tokenizer::from_parts(
        TokenizerModel::Llama,
        hello_vocab(),
        SpecialTokens { bos: Some(0), eos: Some(1), ..SpecialTokens::default() },
        Vec::new(),
    );
    assert_eq!(tok.decode(&[0, 2, 1]).unwrap(), " Hello");
    let kept = tok.decode_with_options(&[0, 2], DecodeOptions { skip_special: false, skip_control: false }).unwrap();
    assert_eq!(kept, "<bos> Hello");
}

#[test]
fn decode_unknown_id_is_rejected() {
    let tok = Tokenizer::from_parts(TokenizerModel::Llama, hello_vocab(), SpecialTokens::default(), Vec::new());
    let err = tok.decode(&[2, 99]).unwrap_err();
    assert!(matches!(
        err,
        PhalanxError::Tokenizer(TokenizerError::UnknownTokenId { id: 99, vocab_size: 5 })
    ));
    assert!(tok.id_to_piece(99).is_err());
    assert_eq!(tok.id_to_piece(3).unwrap(), "▁world");
}

#[test]
fn decode_invalid_utf8_is_rejected() {
    let vocab = Vocabulary::new(vec!["<0xFF>".into()], None, None).unwrap();
    let tok = Tokenizer::from_parts(TokenizerModel::Llama, vocab, SpecialTokens::default(), Vec::new());
    let err = tok.decode(&[0]).unwrap_err();
    assert!(matches!(err, PhalanxError::Tokenizer(TokenizerError::InvalidUtf8 { .. })));
}

#[test]
fn vocabulary_lookup_uses_last_duplicate() {
    let vocab = Vocabulary::new(vec!["a".into(), "b".into(), "a".into()], None, None).unwrap();
    assert_eq!(vocab.id("a"), Some(2));
    assert_eq!(vocab.id("c"), None);
    assert_eq!(vocab.len(), 3);
    assert_eq!(vocab.piece(1).unwrap(), "b");
    assert_eq!(vocab.token_type(1), TokenType::Normal);
}

#[test]
fn vocabulary_scores_are_looked_up_by_id() {
    let vocab = Vocabulary::new(vec!["a".into(), "b".into()], Some(vec![1.5f32.to_bits(), 0]), None).unwrap();
    assert_eq!(vocab.score(0), Some(1.5f32.to_bits()));
    assert_eq!(vocab.score(7), None);
    let err = Vocabulary::new(vec!["a".into()], Some(vec![0, 0]), None).unwrap_err();
    assert!(matches!(err, PhalanxError::Tokenizer(_)));
}

#[test]
fn token_type_tags_map_to_variants() {
    assert_eq!(TokenType::from_i32(3), TokenType::Control);
    assert_eq!(TokenType::from_i32(6), TokenType::Byte);
    assert_eq!(TokenType::from_i32(42), TokenType::Normal);
    assert!(TokenType::Control.is_skippable_on_decode());
    assert!(!TokenType::Byte.is_skippable_on_decode());
}

#[test]
fn tokenizer_model_names_select_algorithm() {
    assert_eq!(TokenizerModel::parse("llama"), TokenizerModel::Llama);
    assert_eq!(TokenizerModel::parse("gpt2"), TokenizerModel::Gpt2);
    assert!(TokenizerModel::parse("gpt2").prefers_bpe());
    assert!(!TokenizerModel::parse("llama").prefers_bpe());
}

#[test]
fn encode_failure_quotes_the_text_near_the_failure() {
    let err = encode_greedy(&hello_vocab(), "Hello?").unwrap_err();
    assert_eq!(err.to_string(), "failed to encode text near \"?\": no matching vocabulary piece");
}

#[test]
fn byte_fallback_covers_ascii_without_a_piece() {
    let vocab = Vocabulary::new(vec!["▁".into(), "<0x3F>".into()], None, None).unwrap();
    let tok = Tokenizer::from_parts(TokenizerModel::Llama, vocab, SpecialTokens::default(), Vec::new());
    let ids = tok.encode("?", no_specials()).unwrap();
    assert_eq!(ids, vec![0, 1]);
    assert_eq!(tok.decode(&ids).unwrap(), " ?");
}
