//! Tokenizer facade: load from GGUF metadata, encode text, decode token ids.

use vstd::prelude::*;
use vstd::string::StringExecFns;
use vstd::utf8::{decode_utf8, valid_utf8};

use super::decode::{piece_bytes, piece_to_bytes, DecodeOptions};
use super::encode::{
    bpe_encode, encode_answer, encode_bpe, encode_greedy, greedy_from, merge_line, rule_pairs,
    sentencepiece_text, MergeRule,
};
use super::error::{is_tokenizer_fault, TokenizerError, TokenizerFault};
use super::keys;
use super::special::{is_special, SpecialTokens};
use super::vocab::{ids_fit, token_type_at, token_type_of, TokenType, Vocabulary};
use crate::errors::PhalanxError;
use crate::gguf::file::meta_lookup;
use crate::gguf::value::lemma_values_view;
use crate::gguf::{GgufFile, MetaValue, MetadataEntry, MetadataValue};
use crate::text::{decimal_string, str_eq, utf8_error_text, utf8_string};

verus! {

/// Tokenizer family declared by `tokenizer.ggml.model`.
#[derive(Debug, Clone, Copy, PartialEq, Eq, Hash, Structural)]
pub enum TokenizerModel {
    /// Llama-style `SentencePiece` pieces + scores.
    Llama,
    /// Replit `SentencePiece` variant.
    Replit,
    /// GPT-2 / GPT-NeoX BPE with merge rules.
    Gpt2,
    /// RWKV tokenizer.
    Rwkv,
    /// Unrecognised model string — still usable if tokens are present.
    Unknown,
}

/// Family named by a model string.
pub open spec fn tokenizer_model_named(name: Seq<char>) -> TokenizerModel {
    if name == "llama"@ {
        TokenizerModel::Llama
    } else if name == "replit"@ {
        TokenizerModel::Replit
    } else if name == "gpt2"@ {
        TokenizerModel::Gpt2
    } else if name == "rwkv"@ {
        TokenizerModel::Rwkv
    } else {
        TokenizerModel::Unknown
    }
}

impl TokenizerModel {
    /// Parse the GGUF model name string.
    pub fn parse(name: &str) -> (res: Self)
        ensures
            res == tokenizer_model_named(name@),
    {
        if str_eq(name, "llama") {
            TokenizerModel::Llama
        } else if str_eq(name, "replit") {
            TokenizerModel::Replit
        } else if str_eq(name, "gpt2") {
            TokenizerModel::Gpt2
        } else if str_eq(name, "rwkv") {
            TokenizerModel::Rwkv
        } else {
            TokenizerModel::Unknown
        }
    }

    /// Prefer BPE merges when this family typically ships them.
    pub fn prefers_bpe(self) -> (res: bool)
        ensures
            res == (self == TokenizerModel::Gpt2),
    {
        match self {
            TokenizerModel::Gpt2 => true,
            _ => false,
        }
    }
}

/// Options for [`Tokenizer::encode`].
#[derive(Debug, Clone, Copy, PartialEq, Eq, Structural)]
pub struct EncodeOptions {
    /// Prepend the BOS id when the model declares one.
    pub add_bos: bool,
    /// Append the EOS id when the model declares one.
    pub add_eos: bool,
}

impl Default for EncodeOptions {
    /// Prefill options: BOS first, no EOS.
    fn default() -> (res: Self)
        ensures
            res == (EncodeOptions { add_bos: true, add_eos: false }),
    {
        EncodeOptions { add_bos: true, add_eos: false }
    }
}

/// Loaded tokenizer ready for encode / decode.
#[derive(Debug, Clone)]
pub struct Tokenizer {
    model: TokenizerModel,
    vocab: Vocabulary,
    special: SpecialTokens,
    merges: Vec<MergeRule>,
    added_tokens: Vec<String>,
}

/// Model of a tokenizer's tables.
pub struct TokenizerTables {
    pub model: TokenizerModel,
    pub pieces: Seq<Seq<char>>,
    pub scores: Option<Seq<u32>>,
    pub types: Option<Seq<TokenType>>,
    pub special: SpecialTokens,
    pub merges: Seq<(Seq<char>, Seq<char>)>,
    pub added_tokens: Seq<Seq<char>>,
}

impl View for Tokenizer {
    type V = TokenizerTables;

    closed spec fn view(&self) -> TokenizerTables {
        TokenizerTables {
            model: self.model,
            pieces: self.vocab.pieces(),
            scores: self.vocab.score_table(),
            types: self.vocab.type_table(),
            special: self.special,
            merges: rule_pairs(self.merges@),
            added_tokens: self.added_tokens@.map_values(|s: String| s@),
        }
    }
}

// ---------------------------------------------------------------------------
// Metadata model
// ---------------------------------------------------------------------------

/// Required string under `key`.
pub open spec fn required_text(md: Seq<MetadataEntry>, key: Seq<char>) -> Result<Seq<char>, TokenizerFault> {
    match meta_lookup(md, key) {
        Some(MetaValue::Str(s)) => Ok(s),
        Some(_) => Err(TokenizerFault::InvalidType { key }),
        None => Err(TokenizerFault::MissingKey { key }),
    }
}

/// Strings of an array value whose elements are all strings.
pub open spec fn texts_of(v: MetaValue, key: Seq<char>) -> Result<Seq<Seq<char>>, TokenizerFault> {
    match v {
        MetaValue::Array(_, vals) => if forall|i: int| 0 <= i < vals.len() ==> #[trigger] vals[i] is Str {
            Ok(vals.map_values(|e: MetaValue| e->Str_0))
        } else {
            Err(TokenizerFault::InvalidType { key })
        },
        _ => Err(TokenizerFault::InvalidType { key }),
    }
}

/// `f32` elements (bit patterns) of an array of `n` floats under `key`.
pub open spec fn float_table(md: Seq<MetadataEntry>, key: Seq<char>, n: nat) -> Result<Option<Seq<u32>>, TokenizerFault> {
    match meta_lookup(md, key) {
        None => Ok(None),
        Some(MetaValue::Array(_, vals)) => if vals.len() != n {
            Err(TokenizerFault::LengthMismatch { key, expected: n as usize, got: vals.len() as usize })
        } else if forall|i: int| 0 <= i < vals.len() ==> #[trigger] vals[i] is F32 {
            Ok(Some(vals.map_values(|e: MetaValue| e->F32_0)))
        } else {
            Err(TokenizerFault::InvalidType { key })
        },
        Some(_) => Err(TokenizerFault::InvalidType { key }),
    }
}

/// `i32` elements of an array of `n` integers under `key`.
pub open spec fn int_table(md: Seq<MetadataEntry>, key: Seq<char>, n: nat) -> Result<Option<Seq<i32>>, TokenizerFault> {
    match meta_lookup(md, key) {
        None => Ok(None),
        Some(MetaValue::Array(_, vals)) => if vals.len() != n {
            Err(TokenizerFault::LengthMismatch { key, expected: n as usize, got: vals.len() as usize })
        } else if forall|i: int| 0 <= i < vals.len() ==> #[trigger] vals[i] is I32 {
            Ok(Some(vals.map_values(|e: MetaValue| e->I32_0)))
        } else {
            Err(TokenizerFault::InvalidType { key })
        },
        Some(_) => Err(TokenizerFault::InvalidType { key }),
    }
}

/// Optional special token id under `key`: `u32`, or non-negative `i32`, and
/// inside the vocabulary.
pub open spec fn special_id(md: Seq<MetadataEntry>, key: Seq<char>, name: Seq<char>, vocab_size: nat) -> Result<Option<u32>, TokenizerFault> {
    let id = match meta_lookup(md, key) {
        None => Ok(None),
        Some(MetaValue::U32(v)) => Ok(Some(v)),
        Some(MetaValue::I32(v)) => if v >= 0 {
            Ok(Some(v as u32))
        } else {
            Err(TokenizerFault::InvalidType { key })
        },
        Some(_) => Err(TokenizerFault::InvalidType { key }),
    };
    match id {
        Ok(Some(i)) => if i >= vocab_size {
            Err(TokenizerFault::InvalidSpecialToken { name, id: i, vocab_size: vocab_size as usize })
        } else {
            Ok(Some(i))
        },
        other => other,
    }
}

/// Merge rules of the lines that parse, in order.
pub open spec fn parsed_merges(lines: Seq<Seq<char>>) -> Seq<(Seq<char>, Seq<char>)>
    decreases lines.len(),
{
    if lines.len() == 0 {
        Seq::empty()
    } else {
        let rest = parsed_merges(lines.drop_last());
        match merge_line(lines.last()) {
            Some(r) => rest.push(r),
            None => rest,
        }
    }
}

/// Optional string list under `key` (empty when absent).
pub open spec fn optional_texts(md: Seq<MetadataEntry>, key: Seq<char>) -> Result<Seq<Seq<char>>, TokenizerFault> {
    match meta_lookup(md, key) {
        None => Ok(Seq::empty()),
        Some(v) => texts_of(v, key),
    }
}

/// Required string list under `key`.
pub open spec fn required_texts(md: Seq<MetadataEntry>, key: Seq<char>) -> Result<Seq<Seq<char>>, TokenizerFault> {
    match meta_lookup(md, key) {
        None => Err(TokenizerFault::MissingKey { key }),
        Some(v) => texts_of(v, key),
    }
}

/// What `Tokenizer::from_gguf` reads from a metadata table: each key in
/// turn, the first failure winning.
pub open spec fn tokenizer_from_metadata(md: Seq<MetadataEntry>) -> Result<TokenizerTables, TokenizerFault> {
    let model = required_text(md, keys::MODEL@);
    let tokens = required_texts(md, keys::TOKENS@);
    let n = tokens->Ok_0.len();
    let scores = float_table(md, keys::SCORES@, n);
    let types = int_table(md, keys::TOKEN_TYPE@, n);
    let bos = special_id(md, keys::BOS_TOKEN_ID@, "bos"@, n);
    let eos = special_id(md, keys::EOS_TOKEN_ID@, "eos"@, n);
    let unk = special_id(md, keys::UNKNOWN_TOKEN_ID@, "unknown"@, n);
    let sep = special_id(md, keys::SEPARATOR_TOKEN_ID@, "separator"@, n);
    let pad = special_id(md, keys::PADDING_TOKEN_ID@, "padding"@, n);
    let merges = optional_texts(md, keys::MERGES@);
    let added = optional_texts(md, keys::ADDED_TOKENS@);
    if model is Err {
        Err(model->Err_0)
    } else if tokens is Err {
        Err(tokens->Err_0)
    } else if scores is Err {
        Err(scores->Err_0)
    } else if types is Err {
        Err(types->Err_0)
    } else if !ids_fit(n as int) {
        Err(TokenizerFault::InvalidType { key: keys::TOKENS@ })
    } else if bos is Err {
        Err(bos->Err_0)
    } else if eos is Err {
        Err(eos->Err_0)
    } else if unk is Err {
        Err(unk->Err_0)
    } else if sep is Err {
        Err(sep->Err_0)
    } else if pad is Err {
        Err(pad->Err_0)
    } else if merges is Err {
        Err(merges->Err_0)
    } else if added is Err {
        Err(added->Err_0)
    } else {
        Ok(TokenizerTables {
            model: tokenizer_model_named(model->Ok_0),
            pieces: tokens->Ok_0,
            scores: scores->Ok_0,
            types: match types->Ok_0 {
                Some(t) => Some(t.map_values(|v: i32| token_type_of(v))),
                None => None,
            },
            special: SpecialTokens {
                bos: bos->Ok_0,
                eos: eos->Ok_0,
                unknown: unk->Ok_0,
                separator: sep->Ok_0,
                padding: pad->Ok_0,
            },
            merges: parsed_merges(merges->Ok_0),
            added_tokens: added->Ok_0,
        })
    }
}

// ---------------------------------------------------------------------------
// Encode / decode model
// ---------------------------------------------------------------------------

/// Ids of `text` before BOS/EOS: BPE when merge rules exist, greedy
/// longest match otherwise.
pub open spec fn encode_ids(t: TokenizerTables, text: Seq<char>) -> Result<Seq<u32>, Seq<char>> {
    if t.merges.len() > 0 {
        bpe_encode(t.pieces, t.merges, text)
    } else {
        greedy_from(t.pieces, sentencepiece_text(text), 0)
    }
}

/// `ids` framed by BOS / EOS as the options and declared ids say.
pub open spec fn framed(special: SpecialTokens, options: EncodeOptions, ids: Seq<u32>) -> Seq<u32> {
    let head = if options.add_bos && special.bos is Some {
        seq![special.bos->Some_0] + ids
    } else {
        ids
    };
    if options.add_eos && special.eos is Some {
        head.push(special.eos->Some_0)
    } else {
        head
    }
}

/// `true` when decoding drops `id` under `options`.
pub open spec fn skipped(t: TokenizerTables, options: DecodeOptions, id: u32) -> bool {
    ||| options.skip_special && is_special(t.special, id)
    ||| options.skip_control && (token_type_at(t.types, id) == TokenType::Control || token_type_at(
        t.types,
        id,
    ) == TokenType::Unused)
}

/// Bytes that decoding `ids` concatenates, or the first unknown id.
pub open spec fn decoded_bytes(t: TokenizerTables, options: DecodeOptions, ids: Seq<u32>) -> Result<Seq<u8>, TokenizerFault>
    decreases ids.len(),
{
    if ids.len() == 0 {
        Ok(Seq::empty())
    } else {
        match decoded_bytes(t, options, ids.drop_last()) {
            Err(f) => Err(f),
            Ok(b) => {
                let id = ids.last();
                if skipped(t, options, id) {
                    Ok(b)
                } else if id < t.pieces.len() {
                    Ok(b + piece_bytes(t.pieces[id as int]))
                } else {
                    Err(TokenizerFault::UnknownTokenId { id, vocab_size: t.pieces.len() as usize })
                }
            },
        }
    }
}

// ---------------------------------------------------------------------------
// Loading helpers
// ---------------------------------------------------------------------------

fn tok_err(e: TokenizerError) -> (res: PhalanxError)
    ensures
        res == PhalanxError::Tokenizer(e),
{
    PhalanxError::Tokenizer(e)
}

fn invalid_type(key: &'static str, head: &str, tail: &str) -> (res: PhalanxError)
    ensures
        is_tokenizer_fault::<()>(Err(res), TokenizerFault::InvalidType { key: key@ }),
{
    let mut reason = head.to_owned();
    reason.append(tail);
    tok_err(TokenizerError::InvalidType { key, reason })
}

fn required_str<'a>(file: &'a GgufFile, key: &'static str) -> (res: Result<&'a str, PhalanxError>)
    ensures
        match required_text(file.metadata@, key@) {
            Ok(s) => res matches Ok(r) && r@ == s,
            Err(f) => is_tokenizer_fault(res, f),
        },
{
    match file.get(key) {
        None => Err(tok_err(TokenizerError::MissingKey { key })),
        Some(value) => match value.as_str() {
            Some(s) => Ok(s),
            None => Err(invalid_type(key, "expected string, got ", value.value_type().debug_name())),
        },
    }
}

fn string_array(value: &MetadataValue, key: &'static str) -> (res: Result<Vec<String>, PhalanxError>)
    ensures
        match texts_of(value.view_value(), key@) {
            Ok(ts) => res matches Ok(v) && v@.map_values(|s: String| s@) == ts,
            Err(f) => is_tokenizer_fault(res, f),
        },
{
    let array = match value.as_array() {
        Some(a) => a,
        None => {
            return Err(invalid_type(key, "expected array, got ", value.value_type().debug_name()));
        },
    };
    let ghost vals = crate::gguf::value::values_view(array.values@);
    proof {
        lemma_values_view(array.values@);
    }
    let mut out: Vec<String> = Vec::new();
    let mut i: usize = 0;
    while i < array.values.len()
        invariant
            i <= array.values@.len(),
            vals == crate::gguf::value::values_view(array.values@),
            value.view_value() == MetaValue::Array(array.element_type, vals),
            vals.len() == array.values@.len(),
            forall|j: int| 0 <= j < vals.len() ==> #[trigger] vals[j] == array.values@[j].view_value(),
            forall|j: int| 0 <= j < i ==> #[trigger] vals[j] is Str,
            out@.map_values(|s: String| s@) == vals.take(i as int).map_values(|e: MetaValue| e->Str_0),
        decreases array.values@.len() - i,
    {
        let element = &array.values[i];
        match element.as_str() {
            Some(s) => {
                let owned = s.to_owned();
                proof {
                    assert(out@.push(owned).map_values(|s: String| s@) =~= out@.map_values(|s: String| s@).push(owned@));
                    assert(vals.take(i + 1).map_values(|e: MetaValue| e->Str_0) =~= vals.take(i as int).map_values(|e: MetaValue| e->Str_0).push(vals[i as int]->Str_0));
                }
                out.push(owned);
            },
            None => {
                let mut reason = "element ".to_owned();
                reason.append(decimal_string(i as u64).as_str());
                reason.append(" is not a string (");
                reason.append(element.value_type().debug_name());
                reason.append(")");
                assert(!(vals[i as int] is Str));
                return Err(tok_err(TokenizerError::InvalidType { key, reason }));
            },
        }
        i = i + 1;
    }
    assert(vals.take(i as int) =~= vals);
    Ok(out)
}

fn required_string_array(file: &GgufFile, key: &'static str) -> (res: Result<Vec<String>, PhalanxError>)
    ensures
        match required_texts(file.metadata@, key@) {
            Ok(ts) => res matches Ok(v) && v@.map_values(|s: String| s@) == ts,
            Err(f) => is_tokenizer_fault(res, f),
        },
{
    match file.get(key) {
        None => Err(tok_err(TokenizerError::MissingKey { key })),
        Some(value) => string_array(value, key),
    }
}

fn optional_string_array(file: &GgufFile, key: &'static str) -> (res: Result<Vec<String>, PhalanxError>)
    ensures
        match optional_texts(file.metadata@, key@) {
            Ok(ts) => res matches Ok(v) && v@.map_values(|s: String| s@) == ts,
            Err(f) => is_tokenizer_fault(res, f),
        },
{
    match file.get(key) {
        None => {
            let v: Vec<String> = Vec::new();
            assert(v@.map_values(|s: String| s@) =~= Seq::<Seq<char>>::empty());
            Ok(v)
        },
        Some(value) => string_array(value, key),
    }
}

fn length_mismatch(key: &'static str, expected: usize, got: usize) -> (res: PhalanxError)
    ensures
        is_tokenizer_fault::<()>(
            Err(res),
            TokenizerFault::LengthMismatch { key: key@, expected, got },
        ),
{
    tok_err(TokenizerError::LengthMismatch { key, expected, got })
}

fn element_type_error(key: &'static str, i: usize, what: &str, element: &MetadataValue) -> (res: PhalanxError)
    ensures
        is_tokenizer_fault::<()>(Err(res), TokenizerFault::InvalidType { key: key@ }),
{
    let mut reason = "element ".to_owned();
    reason.append(decimal_string(i as u64).as_str());
    reason.append(what);
    reason.append(element.value_type().debug_name());
    reason.append(")");
    tok_err(TokenizerError::InvalidType { key, reason })
}

fn optional_f32_array(file: &GgufFile, key: &'static str, expected_len: usize) -> (res: Result<Option<Vec<u32>>, PhalanxError>)
    ensures
        match float_table(file.metadata@, key@, expected_len as nat) {
            Ok(Some(t)) => res matches Ok(Some(v)) && v@ == t,
            Ok(None) => res matches Ok(None),
            Err(f) => is_tokenizer_fault(res, f),
        },
{
    let value = match file.get(key) {
        None => {
            return Ok(None);
        },
        Some(v) => v,
    };
    let array = match value.as_array() {
        Some(a) => a,
        None => {
            return Err(invalid_type(key, "expected array, got ", value.value_type().debug_name()));
        },
    };
    let ghost vals = crate::gguf::value::values_view(array.values@);
    proof {
        lemma_values_view(array.values@);
    }
    if array.values.len() != expected_len {
        return Err(length_mismatch(key, expected_len, array.values.len()));
    }
    let mut out: Vec<u32> = Vec::new();
    let mut i: usize = 0;
    while i < array.values.len()
        invariant
            i <= array.values@.len(),
            vals.len() == array.values@.len(),
            vals.len() == expected_len,
            meta_lookup(file.metadata@, key@) == Some(MetaValue::Array(array.element_type, vals)),
            forall|j: int| 0 <= j < vals.len() ==> #[trigger] vals[j] == array.values@[j].view_value(),
            forall|j: int| 0 <= j < i ==> #[trigger] vals[j] is F32,
            out@ == vals.take(i as int).map_values(|e: MetaValue| e->F32_0),
        decreases array.values@.len() - i,
    {
        let element = &array.values[i];
        match element.as_f32() {
            Some(bits) => {
                proof {
                    assert(vals.take(i + 1).map_values(|e: MetaValue| e->F32_0) =~= vals.take(i as int).map_values(|e: MetaValue| e->F32_0).push(vals[i as int]->F32_0));
                }
                out.push(bits);
            },
            None => {
                assert(!(vals[i as int] is F32));
                return Err(element_type_error(key, i, " is not f32 (", element));
            },
        }
        i = i + 1;
    }
    assert(vals.take(i as int) =~= vals);
    Ok(Some(out))
}

fn optional_i32_array(file: &GgufFile, key: &'static str, expected_len: usize) -> (res: Result<Option<Vec<i32>>, PhalanxError>)
    ensures
        match int_table(file.metadata@, key@, expected_len as nat) {
            Ok(Some(t)) => res matches Ok(Some(v)) && v@ == t,
            Ok(None) => res matches Ok(None),
            Err(f) => is_tokenizer_fault(res, f),
        },
{
    let value = match file.get(key) {
        None => {
            return Ok(None);
        },
        Some(v) => v,
    };
    let array = match value.as_array() {
        Some(a) => a,
        None => {
            return Err(invalid_type(key, "expected array, got ", value.value_type().debug_name()));
        },
    };
    let ghost vals = crate::gguf::value::values_view(array.values@);
    proof {
        lemma_values_view(array.values@);
    }
    if array.values.len() != expected_len {
        return Err(length_mismatch(key, expected_len, array.values.len()));
    }
    let mut out: Vec<i32> = Vec::new();
    let mut i: usize = 0;
    while i < array.values.len()
        invariant
            i <= array.values@.len(),
            vals.len() == array.values@.len(),
            vals.len() == expected_len,
            meta_lookup(file.metadata@, key@) == Some(MetaValue::Array(array.element_type, vals)),
            forall|j: int| 0 <= j < vals.len() ==> #[trigger] vals[j] == array.values@[j].view_value(),
            forall|j: int| 0 <= j < i ==> #[trigger] vals[j] is I32,
            out@ == vals.take(i as int).map_values(|e: MetaValue| e->I32_0),
        decreases array.values@.len() - i,
    {
        let element = &array.values[i];
        match element.as_i32() {
            Some(v) => {
                proof {
                    assert(vals.take(i + 1).map_values(|e: MetaValue| e->I32_0) =~= vals.take(i as int).map_values(|e: MetaValue| e->I32_0).push(vals[i as int]->I32_0));
                }
                out.push(v);
            },
            None => {
                assert(!(vals[i as int] is I32));
                return Err(element_type_error(key, i, " is not i32 (", element));
            },
        }
        i = i + 1;
    }
    assert(vals.take(i as int) =~= vals);
    Ok(Some(out))
}

fn optional_token_id(file: &GgufFile, key: &'static str, name: &'static str, vocab_size: usize) -> (res: Result<Option<u32>, PhalanxError>)
    ensures
        match special_id(file.metadata@, key@, name@, vocab_size as nat) {
            Ok(x) => res == Ok::<Option<u32>, PhalanxError>(x),
            Err(f) => is_tokenizer_fault(res, f),
        },
{
    let value = match file.get(key) {
        None => {
            return Ok(None);
        },
        Some(v) => v,
    };
    let id: u32 = match value {
        MetadataValue::U32(v) => *v,
        MetadataValue::I32(v) => {
            if *v < 0 {
                let mut reason = "negative special token id -".to_owned();
                let magnitude: u64 = (0i64 - (*v as i64)) as u64;
                reason.append(decimal_string(magnitude).as_str());
                return Err(tok_err(TokenizerError::InvalidType { key, reason }));
            }
            *v as u32
        },
        other => {
            return Err(invalid_type(key, "expected u32/i32, got ", other.value_type().debug_name()));
        },
    };
    if id as usize >= vocab_size {
        return Err(tok_err(TokenizerError::InvalidSpecialToken { name, id, vocab_size }));
    }
    Ok(Some(id))
}

fn load_special_tokens(file: &GgufFile, vocab_size: usize) -> (res: Result<SpecialTokens, PhalanxError>)
    ensures
        ({
            let md = file.metadata@;
            let n = vocab_size as nat;
            let bos = special_id(md, keys::BOS_TOKEN_ID@, "bos"@, n);
            let eos = special_id(md, keys::EOS_TOKEN_ID@, "eos"@, n);
            let unk = special_id(md, keys::UNKNOWN_TOKEN_ID@, "unknown"@, n);
            let sep = special_id(md, keys::SEPARATOR_TOKEN_ID@, "separator"@, n);
            let pad = special_id(md, keys::PADDING_TOKEN_ID@, "padding"@, n);
            if bos is Err {
                is_tokenizer_fault(res, bos->Err_0)
            } else if eos is Err {
                is_tokenizer_fault(res, eos->Err_0)
            } else if unk is Err {
                is_tokenizer_fault(res, unk->Err_0)
            } else if sep is Err {
                is_tokenizer_fault(res, sep->Err_0)
            } else if pad is Err {
                is_tokenizer_fault(res, pad->Err_0)
            } else {
                res == Ok::<SpecialTokens, PhalanxError>(
                    SpecialTokens {
                        bos: bos->Ok_0,
                        eos: eos->Ok_0,
                        unknown: unk->Ok_0,
                        separator: sep->Ok_0,
                        padding: pad->Ok_0,
                    },
                )
            }
        }),
{
    let bos = match optional_token_id(file, keys::BOS_TOKEN_ID, "bos", vocab_size) {
        Ok(v) => v,
        Err(e) => {
            return Err(e);
        },
    };
    let eos = match optional_token_id(file, keys::EOS_TOKEN_ID, "eos", vocab_size) {
        Ok(v) => v,
        Err(e) => {
            return Err(e);
        },
    };
    let unknown = match optional_token_id(file, keys::UNKNOWN_TOKEN_ID, "unknown", vocab_size) {
        Ok(v) => v,
        Err(e) => {
            return Err(e);
        },
    };
    let separator = match optional_token_id(file, keys::SEPARATOR_TOKEN_ID, "separator", vocab_size) {
        Ok(v) => v,
        Err(e) => {
            return Err(e);
        },
    };
    let padding = match optional_token_id(file, keys::PADDING_TOKEN_ID, "padding", vocab_size) {
        Ok(v) => v,
        Err(e) => {
            return Err(e);
        },
    };
    Ok(SpecialTokens { bos, eos, unknown, separator, padding })
}

fn parse_merges(lines: Vec<String>) -> (res: Vec<MergeRule>)
    ensures
        rule_pairs(res@) == parsed_merges(lines@.map_values(|s: String| s@)),
{
    let ghost ls = lines@.map_values(|s: String| s@);
    let mut out: Vec<MergeRule> = Vec::new();
    let mut i: usize = 0;
    while i < lines.len()
        invariant
            i <= lines@.len(),
            ls == lines@.map_values(|s: String| s@),
            rule_pairs(out@) == parsed_merges(ls.take(i as int)),
        decreases lines@.len() - i,
    {
        proof {
            assert(ls.take(i + 1).drop_last() =~= ls.take(i as int));
            assert(ls.take(i + 1).last() == lines@[i as int]@);
        }
        match MergeRule::parse(lines[i].as_str()) {
            Some(rule) => {
                proof {
                    assert(rule_pairs(out@.push(rule)) =~= rule_pairs(out@).push((rule.left@, rule.right@)));
                }
                out.push(rule);
            },
            None => {},
        }
        i = i + 1;
    }
    assert(ls.take(i as int) =~= ls);
    out
}

fn types_of(raw: Vec<i32>) -> (res: Vec<TokenType>)
    ensures
        res@ == raw@.map_values(|v: i32| token_type_of(v)),
{
    let mut out: Vec<TokenType> = Vec::new();
    let mut i: usize = 0;
    while i < raw.len()
        invariant
            i <= raw@.len(),
            out@ == raw@.take(i as int).map_values(|v: i32| token_type_of(v)),
        decreases raw@.len() - i,
    {
        proof {
            assert(raw@.take(i + 1).map_values(|v: i32| token_type_of(v)) =~= raw@.take(i as int).map_values(|v: i32| token_type_of(v)).push(token_type_of(raw@[i as int])));
        }
        out.push(TokenType::from_i32(raw[i]));
        i = i + 1;
    }
    assert(raw@.take(i as int) =~= raw@);
    out
}

impl Tokenizer {
    /// Load tokenizer tables from an already-parsed [`GgufFile`].
    ///
    /// The result is exactly [`tokenizer_from_metadata`] of the file's
    /// metadata: the first missing or mistyped key, a length mismatch of the
    /// score / type tables, or a special id outside the vocabulary fails
    /// with the matching [`TokenizerError`].
    pub fn from_gguf(file: &GgufFile) -> (res: Result<Self, PhalanxError>)
        ensures
            match tokenizer_from_metadata(file.metadata@) {
                Ok(t) => res matches Ok(tok) && tok@ == t,
                Err(f) => is_tokenizer_fault(res, f),
            },
    {
        let model_name = match required_str(file, keys::MODEL) {
            Ok(m) => m,
            Err(e) => {
                return Err(e);
            },
        };
        let model = TokenizerModel::parse(model_name);
        let tokens = match required_string_array(file, keys::TOKENS) {
            Ok(t) => t,
            Err(e) => {
                return Err(e);
            },
        };
        let n = tokens.len();
        let scores = match optional_f32_array(file, keys::SCORES, n) {
            Ok(s) => s,
            Err(e) => {
                return Err(e);
            },
        };
        let raw_types = match optional_i32_array(file, keys::TOKEN_TYPE, n) {
            Ok(t) => t,
            Err(e) => {
                return Err(e);
            },
        };
        let token_types = match raw_types {
            Some(values) => Some(types_of(values)),
            None => None,
        };
        let vocab = match Vocabulary::new(tokens, scores, token_types) {
            Ok(v) => v,
            Err(e) => {
                return Err(e);
            },
        };
        let special = match load_special_tokens(file, vocab.len()) {
            Ok(s) => s,
            Err(e) => {
                return Err(e);
            },
        };
        let merges = match file.get(keys::MERGES) {
            None => Vec::new(),
            Some(value) => match string_array(value, keys::MERGES) {
                Ok(lines) => parse_merges(lines),
                Err(e) => {
                    return Err(e);
                },
            },
        };
        let added_tokens = match optional_string_array(file, keys::ADDED_TOKENS) {
            Ok(a) => a,
            Err(e) => {
                return Err(e);
            },
        };
        proof {
            if merges@.len() == 0 {
                assert(rule_pairs(merges@) =~= Seq::empty());
            }
        }
        Ok(Tokenizer { model, vocab, special, merges, added_tokens })
    }

    /// Construct from pre-built parts (no added tokens).
    pub fn from_parts(
        model: TokenizerModel,
        vocab: Vocabulary,
        special: SpecialTokens,
        merges: Vec<MergeRule>,
    ) -> (res: Self)
        ensures
            res@.model == model,
            res@.pieces == vocab.pieces(),
            res@.scores == vocab.score_table(),
            res@.types == vocab.type_table(),
            res@.special == special,
            res@.merges == rule_pairs(merges@),
            res@.added_tokens == Seq::<Seq<char>>::empty(),
    {
        let added_tokens: Vec<String> = Vec::new();
        assert(added_tokens@.map_values(|s: String| s@) =~= Seq::<Seq<char>>::empty());
        Tokenizer { model, vocab, special, merges, added_tokens }
    }

    /// Tokenizer family.
    pub fn model(&self) -> (res: TokenizerModel)
        ensures
            res == self@.model,
    {
        self.model
    }

    /// Borrow the vocabulary.
    pub fn vocab(&self) -> (res: &Vocabulary)
        ensures
            res.pieces() == self@.pieces,
            res.score_table() == self@.scores,
            res.type_table() == self@.types,
    {
        &self.vocab
    }

    /// Borrow special token ids.
    pub fn special(&self) -> (res: &SpecialTokens)
        ensures
            *res == self@.special,
    {
        &self.special
    }

    /// BPE merge rules (empty for pure SentencePiece-style files).
    pub fn merges(&self) -> (res: &[MergeRule])
        ensures
            rule_pairs(res@) == self@.merges,
    {
        self.merges.as_slice()
    }

    /// Added-token strings from metadata, if any.
    pub fn added_tokens(&self) -> (res: &[String])
        ensures
            res@.map_values(|s: String| s@) == self@.added_tokens,
    {
        self.added_tokens.as_slice()
    }

    /// Encode `text` into token ids: BPE when merge rules exist, greedy
    /// longest match otherwise, then BOS / EOS as the options ask.
    ///
    /// Fails with [`TokenizerError::EncodeFailure`] when a span cannot be mapped.
    pub fn encode(&self, text: &str, options: EncodeOptions) -> (res: Result<Vec<u32>, PhalanxError>)
        ensures
            self@.pieces.len() <= 0x1_0000_0000,
            match encode_ids(self@, text@) {
                Ok(ids) => res matches Ok(v) && v@ == framed(self@.special, options, ids),
                Err(c) => is_tokenizer_fault(res, TokenizerFault::EncodeFailure { context: c }),
            },
    {
        let encoded = if self.merges.len() > 0 {
            // Some Llama exports still ship merges; BPE applies whenever they do.
            encode_bpe(&self.vocab, self.merges.as_slice(), text)
        } else {
            encode_greedy(&self.vocab, text)
        };
        let mut ids = match encoded {
            Ok(ids) => ids,
            Err(e) => {
                proof {
                    use_type_invariant(&self.vocab);
                }
                return Err(e);
            },
        };
        proof {
            use_type_invariant(&self.vocab);
        }
        let ghost base = ids@;
        if options.add_bos {
            if let Some(bos) = self.special.bos {
                ids.insert(0, bos);
                assert(ids@ =~= seq![bos] + base);
            }
        }
        if options.add_eos {
            if let Some(eos) = self.special.eos {
                ids.push(eos);
            }
        }
        Ok(ids)
    }

    /// Decode token ids with default display options (skip specials/control).
    pub fn decode(&self, ids: &[u32]) -> (res: Result<String, PhalanxError>)
        ensures
            self@.pieces.len() <= 0x1_0000_0000,
            match decoded_bytes(self@, DecodeOptions { skip_special: true, skip_control: true }, ids@) {
                Err(f) => is_tokenizer_fault(res, f),
                Ok(b) => if valid_utf8(b) {
                    res matches Ok(s) && s@ == decode_utf8(b)
                } else {
                    is_tokenizer_fault(res, TokenizerFault::InvalidUtf8)
                },
            },
    {
        self.decode_with_options(ids, DecodeOptions::default())
    }

    /// Decode token ids with explicit options.
    ///
    /// Skipped ids contribute nothing; every other id contributes the bytes
    /// of its piece ([`piece_bytes`]). Fails with
    /// [`TokenizerError::UnknownTokenId`] at the first kept id outside the
    /// vocabulary, and with [`TokenizerError::InvalidUtf8`] when the bytes
    /// are not valid UTF-8 (no lossy replacement).
    pub fn decode_with_options(&self, ids: &[u32], options: DecodeOptions) -> (res: Result<String, PhalanxError>)
        ensures
            self@.pieces.len() <= 0x1_0000_0000,
            match decoded_bytes(self@, options, ids@) {
                Err(f) => is_tokenizer_fault(res, f),
                Ok(b) => if valid_utf8(b) {
                    res matches Ok(s) && s@ == decode_utf8(b)
                } else {
                    is_tokenizer_fault(res, TokenizerFault::InvalidUtf8)
                },
            },
    {
        proof {
            use_type_invariant(&self.vocab);
        }
        let ghost t = self@;
        let mut bytes: Vec<u8> = Vec::new();
        let mut i: usize = 0;
        while i < ids.len()
            invariant
                t == self@,
                i <= ids@.len(),
                decoded_bytes(t, options, ids@.take(i as int)) == Ok::<Seq<u8>, TokenizerFault>(bytes@),
            decreases ids@.len() - i,
        {
            let id = ids[i];
            proof {
                assert(ids@.take(i + 1).drop_last() =~= ids@.take(i as int));
                assert(ids@.take(i + 1).last() == id);
            }
            if options.skip_special && self.special.contains(id) {
                i = i + 1;
                continue;
            }
            let token_type = self.vocab.token_type(id);
            if options.skip_control && token_type.is_skippable_on_decode() {
                i = i + 1;
                continue;
            }
            let piece = match self.vocab.piece(id) {
                Ok(p) => p,
                Err(e) => {
                    proof {
                        lemma_decoded_prefix_error(t, options, ids@, i as int);
                    }
                    return Err(e);
                },
            };
            let more = piece_to_bytes(piece);
            let mut k: usize = 0;
            let ghost before = bytes@;
            while k < more.len()
                invariant
                    k <= more@.len(),
                    bytes@ == before + more@.take(k as int),
                decreases more@.len() - k,
            {
                proof {
                    assert(more@.take(k + 1) =~= more@.take(k as int).push(more@[k as int]));
                    assert(before + more@.take(k + 1) =~= (before + more@.take(k as int)).push(more@[k as int]));
                }
                bytes.push(more[k]);
                k = k + 1;
            }
            assert(more@.take(k as int) =~= more@);
            i = i + 1;
        }
        assert(ids@.take(i as int) =~= ids@);
        match utf8_string(bytes) {
            Ok(s) => Ok(s),
            Err(err) => Err(tok_err(TokenizerError::InvalidUtf8 { reason: utf8_error_text(&err) })),
        }
    }

    /// Decode a single id to its vocabulary piece (no `▁` rewriting).
    ///
    /// Fails with [`TokenizerError::UnknownTokenId`] when out of range.
    pub fn id_to_piece(&self, id: u32) -> (res: Result<&str, PhalanxError>)
        ensures
            id < self@.pieces.len() ==> (res matches Ok(p) && p@ == self@.pieces[id as int]),
            id >= self@.pieces.len() ==> is_tokenizer_fault(
                res,
                TokenizerFault::UnknownTokenId { id, vocab_size: self@.pieces.len() as usize },
            ),
    {
        self.vocab.piece(id)
    }
}

/// An unknown id at position `i` of a prefix that decoded so far fails the
/// whole decode with that id.
proof fn lemma_decoded_prefix_error(t: TokenizerTables, options: DecodeOptions, ids: Seq<u32>, i: int)
    requires
        0 <= i < ids.len(),
        decoded_bytes(t, options, ids.take(i)) is Ok,
        !skipped(t, options, ids[i]),
        ids[i] >= t.pieces.len(),
    ensures
        decoded_bytes(t, options, ids) == Err::<Seq<u8>, TokenizerFault>(
            TokenizerFault::UnknownTokenId { id: ids[i], vocab_size: t.pieces.len() as usize },
        ),
    decreases ids.len() - i,
{
    assert(ids.take(i + 1).drop_last() =~= ids.take(i));
    lemma_decoded_error_sticks(t, options, ids, i + 1);
}

/// Once a prefix fails, every longer prefix fails the same way.
proof fn lemma_decoded_error_sticks(t: TokenizerTables, options: DecodeOptions, ids: Seq<u32>, k: int)
    requires
        0 <= k <= ids.len(),
        decoded_bytes(t, options, ids.take(k)) is Err,
    ensures
        decoded_bytes(t, options, ids) == decoded_bytes(t, options, ids.take(k)),
    decreases ids.len() - k,
{
    if k < ids.len() {
        assert(ids.take(k + 1).drop_last() =~= ids.take(k));
        lemma_decoded_error_sticks(t, options, ids, k + 1);
    } else {
        assert(ids.take(k) =~= ids);
    }
}

/// Every special id that loading accepts names a vocabulary entry.
pub proof fn lemma_loaded_specials_in_vocab(md: Seq<MetadataEntry>)
    ensures
        tokenizer_from_metadata(md) matches Ok(t) ==> {
            &&& t.special.bos matches Some(b) ==> b < t.pieces.len()
            &&& t.special.eos matches Some(e) ==> e < t.pieces.len()
            &&& t.special.unknown matches Some(u) ==> u < t.pieces.len()
            &&& t.special.separator matches Some(s) ==> s < t.pieces.len()
            &&& t.special.padding matches Some(p) ==> p < t.pieces.len()
        },
{
}

/// Decoding ids that all index the vocabulary never reports an unknown id:
/// the bytes are the pieces' bytes of the kept ids.
pub proof fn lemma_decode_known_ids(t: TokenizerTables, options: DecodeOptions, ids: Seq<u32>)
    requires
        forall|k: int| 0 <= k < ids.len() ==> #[trigger] ids[k] < t.pieces.len(),
    ensures
        decoded_bytes(t, options, ids) is Ok,
    decreases ids.len(),
{
    if ids.len() > 0 {
        assert forall|k: int| 0 <= k < ids.drop_last().len() implies #[trigger] ids.drop_last()[k] < t.pieces.len() by {
            assert(ids.drop_last()[k] == ids[k]);
        }
        lemma_decode_known_ids(t, options, ids.drop_last());
        assert(ids.last() == ids[ids.len() - 1]);
    }
}

/// With special ids skipped, decoding drops every id declared for a special
/// role (BOS, EOS, unknown, separator or padding): it answers the same for
/// `ids` as for `ids` with every occurrence of that id removed.
pub proof fn lemma_decode_drops_special_roles(t: TokenizerTables, options: DecodeOptions, ids: Seq<u32>, v: u32)
    requires
        options.skip_special,
        t.special.bos == Some(v) || t.special.eos == Some(v) || t.special.unknown == Some(v)
            || t.special.separator == Some(v) || t.special.padding == Some(v),
    ensures
        decoded_bytes(t, options, ids) == decoded_bytes(t, options, ids.filter(|x: u32| x != v)),
    decreases ids.len(),
{
    let keep = |x: u32| x != v;
    reveal(Seq::filter);
    if ids.len() > 0 {
        lemma_decode_drops_special_roles(t, options, ids.drop_last(), v);
        let rest = ids.drop_last().filter(keep);
        if ids.last() == v {
            assert(ids.filter(keep) == rest);
        } else {
            assert(ids.filter(keep) == rest.push(ids.last()));
            assert(rest.push(ids.last()).drop_last() =~= rest);
        }
    }
}

/// With nothing skipped, decoding concatenates the bytes of each piece.
pub proof fn lemma_decode_concatenates(t: TokenizerTables, ids: Seq<u32>)
    requires
        forall|k: int| 0 <= k < ids.len() ==> #[trigger] ids[k] < t.pieces.len(),
    ensures
        decoded_bytes(t, DecodeOptions { skip_special: false, skip_control: false }, ids)
            == Ok::<Seq<u8>, TokenizerFault>(
            ids.map_values(|i: u32| piece_bytes(t.pieces[i as int])).flatten_alt(),
        ),
    decreases ids.len(),
{
    if ids.len() > 0 {
        let opts = DecodeOptions { skip_special: false, skip_control: false };
        assert forall|k: int| 0 <= k < ids.drop_last().len() implies #[trigger] ids.drop_last()[k] < t.pieces.len() by {
            assert(ids.drop_last()[k] == ids[k]);
        }
        lemma_decode_concatenates(t, ids.drop_last());
        let m = ids.map_values(|i: u32| piece_bytes(t.pieces[i as int]));
        assert(m.drop_last() =~= ids.drop_last().map_values(|i: u32| piece_bytes(t.pieces[i as int])));
        assert(ids.last() == ids[ids.len() - 1]);
    }
}

} // verus!
