//! Display texts of the library's errors, as the error types print them.

use vstd::prelude::*;
use vstd::string::StringExecFns;

use crate::gguf::types::ggml_type_name;
use crate::gguf::{GgmlType, GgufError};
use crate::layers::LayersError;
use crate::model::ModelError;
use crate::tensor::TensorError;
use crate::text::{debug_text, decimal, decimal_string, str_debug};
use crate::tokenizer::TokenizerError;
use crate::weights::WeightsError;

verus! {

/// Display text of a `ggml_type`: its name, or `unknown(<tag>)`.
pub open spec fn ggml_type_text(t: GgmlType) -> Seq<char> {
    match t {
        GgmlType::Unknown(id) => "unknown("@ + decimal(id as nat) + ")"@,
        other => ggml_type_name(other)@,
    }
}

/// Display text of a `ggml_type`.
pub fn ggml_type_display(t: GgmlType) -> (res: String)
    ensures
        res@ == ggml_type_text(t),
{
    match t {
        GgmlType::Unknown(id) => {
            let mut s = "unknown(".to_owned();
            s.append(decimal_string(id as u64).as_str());
            s.append(")");
            s
        },
        other => other.name().to_owned(),
    }
}

/// `Debug` text of a list of numbers: `[a, b, ...]`.
pub open spec fn list_text(values: Seq<nat>) -> Seq<char> {
    "["@ + list_items(values) + "]"@
}

/// Numbers in decimal, separated by `", "`.
pub open spec fn list_items(values: Seq<nat>) -> Seq<char>
    decreases values.len(),
{
    if values.len() == 0 {
        Seq::empty()
    } else if values.len() == 1 {
        decimal(values[0])
    } else {
        list_items(values.drop_last()) + ", "@ + decimal(values.last())
    }
}

/// `Debug` text of a list of `u64`, `[a, b, …]`.
pub(crate) fn list_display(values: &[u64]) -> (res: String)
    ensures
        res@ == list_text(values@.map_values(|v: u64| v as nat)),
{
    let ghost vs = values@.map_values(|v: u64| v as nat);
    let mut out = "[".to_owned();
    let mut i: usize = 0;
    while i < values.len()
        invariant
            i <= values@.len(),
            vs == values@.map_values(|v: u64| v as nat),
            out@ == "["@ + list_items(vs.take(i as int)),
        decreases values@.len() - i,
    {
        if i > 0 {
            out.append(", ");
        }
        out.append(decimal_string(values[i]).as_str());
        proof {
            assert(vs.take(i + 1).drop_last() =~= vs.take(i as int));
            assert(vs.take(i + 1).last() == values@[i as int] as nat);
        }
        i = i + 1;
    }
    assert(vs.take(i as int) =~= vs);
    out.append("]");
    out
}

/// `Debug` text of a list of `usize`, `[a, b, …]`.
pub(crate) fn usize_list_display(values: &[usize]) -> (res: String)
    ensures
        res@ == list_text(values@.map_values(|v: usize| v as nat)),
{
    let mut wide: Vec<u64> = Vec::new();
    let mut i: usize = 0;
    while i < values.len()
        invariant
            i <= values@.len(),
            wide@.len() == i,
            forall|k: int| 0 <= k < i ==> wide@[k] as nat == values@[k] as nat,
        decreases values@.len() - i,
    {
        wide.push(values[i] as u64);
        i = i + 1;
    }
    assert(wide@.map_values(|v: u64| v as nat) =~= values@.map_values(|v: usize| v as nat));
    list_display(wide.as_slice())
}

/// Display text of a GGUF error.
pub open spec fn gguf_error_text(e: GgufError) -> Seq<char> {
    match e {
        GgufError::InvalidMagic { expected, got } => "invalid GGUF magic: expected "@ + list_text(
            expected@.map_values(|b: u8| b as nat),
        ) + ", got "@ + list_text(got@.map_values(|b: u8| b as nat)),
        GgufError::UnsupportedVersion { version, supported } => "unsupported GGUF version "@
            + decimal(version as nat) + " (supported: "@ + list_text(
            supported@.map_values(|v: u32| v as nat),
        ) + ")"@,
        GgufError::UnexpectedEof { context } => "unexpected end of GGUF stream while reading "@
            + context@,
        GgufError::LimitExceeded { context, got, limit } => "GGUF "@ + context@ + " length "@
            + decimal(got as nat) + " exceeds limit "@ + decimal(limit as nat),
        GgufError::Invalid { context, reason } => "invalid GGUF "@ + context@ + ": "@ + reason@,
        GgufError::UnknownValueType { type_id } => "unknown GGUF metadata value type id "@
            + decimal(type_id as nat),
        GgufError::InvalidBool { value } => "invalid GGUF bool value "@ + decimal(value as nat)
            + " (must be 0 or 1)"@,
        GgufError::InvalidUtf8 { context, reason } => "invalid UTF-8 in GGUF "@ + context@ + ": "@
            + reason@,
    }
}

impl GgufError {
    /// The error's display text.
    pub fn message(&self) -> (res: String)
        ensures
            res@ == gguf_error_text(*self),
    {
        match self {
            GgufError::InvalidMagic { expected, got } => {
                let e: [u64; 4] = [expected[0] as u64, expected[1] as u64, expected[2] as u64, expected[3] as u64];
                let g: [u64; 4] = [got[0] as u64, got[1] as u64, got[2] as u64, got[3] as u64];
                assert(e@.map_values(|v: u64| v as nat) =~= expected@.map_values(|b: u8| b as nat));
                assert(g@.map_values(|v: u64| v as nat) =~= got@.map_values(|b: u8| b as nat));
                let mut s = "invalid GGUF magic: expected ".to_owned();
                s.append(list_display(&e).as_str());
                s.append(", got ");
                s.append(list_display(&g).as_str());
                s
            },
            GgufError::UnsupportedVersion { version, supported } => {
                let v: [u64; 2] = [supported[0] as u64, supported[1] as u64];
                assert(v@.map_values(|x: u64| x as nat) =~= supported@.map_values(|x: u32| x as nat));
                let mut s = "unsupported GGUF version ".to_owned();
                s.append(decimal_string(*version as u64).as_str());
                s.append(" (supported: ");
                s.append(list_display(&v).as_str());
                s.append(")");
                s
            },
            GgufError::UnexpectedEof { context } => {
                let mut s = "unexpected end of GGUF stream while reading ".to_owned();
                s.append(context);
                s
            },
            GgufError::LimitExceeded { context, got, limit } => {
                let mut s = "GGUF ".to_owned();
                s.append(context);
                s.append(" length ");
                s.append(decimal_string(*got).as_str());
                s.append(" exceeds limit ");
                s.append(decimal_string(*limit).as_str());
                s
            },
            GgufError::Invalid { context, reason } => {
                let mut s = "invalid GGUF ".to_owned();
                s.append(context);
                s.append(": ");
                s.append(reason.as_str());
                s
            },
            GgufError::UnknownValueType { type_id } => {
                let mut s = "unknown GGUF metadata value type id ".to_owned();
                s.append(decimal_string(*type_id as u64).as_str());
                s
            },
            GgufError::InvalidBool { value } => {
                let mut s = "invalid GGUF bool value ".to_owned();
                s.append(decimal_string(*value as u64).as_str());
                s.append(" (must be 0 or 1)");
                s
            },
            GgufError::InvalidUtf8 { context, reason } => {
                let mut s = "invalid UTF-8 in GGUF ".to_owned();
                s.append(context);
                s.append(": ");
                s.append(reason.as_str());
                s
            },
        }
    }
}

/// Display text of a tensor error.
pub open spec fn tensor_error_text(e: TensorError) -> Seq<char> {
    match e {
        TensorError::InvalidShape { reason } => "invalid shape: "@ + reason@,
        TensorError::DataLengthMismatch { shape, expected, got } => "data length mismatch: shape "@
            + shape@ + " needs "@ + decimal(expected as nat) + " elements, got "@ + decimal(
            got as nat,
        ),
        TensorError::ShapeMismatch { expected, got } => "shape mismatch: expected "@ + expected@
            + ", got "@ + got@,
        TensorError::RankMismatch { expected, got } => "rank mismatch: expected "@ + decimal(
            expected as nat,
        ) + ", got "@ + decimal(got as nat),
        TensorError::IndexOutOfBounds { axis, index, dim } => "index "@ + decimal(index as nat)
            + " out of bounds for axis "@ + decimal(axis as nat) + " of size "@ + decimal(
            dim as nat,
        ),
        TensorError::MatMulIncompatible { lhs, rhs } => "matmul incompatible shapes: "@ + lhs@
            + " \u{d7} "@ + rhs@ + " (inner dims must match)"@,
    }
}

impl TensorError {
    /// The error's display text.
    pub fn message(&self) -> (res: String)
        ensures
            res@ == tensor_error_text(*self),
    {
        match self {
            TensorError::InvalidShape { reason } => {
                let mut s = "invalid shape: ".to_owned();
                s.append(reason.as_str());
                s
            },
            TensorError::DataLengthMismatch { shape, expected, got } => {
                let mut s = "data length mismatch: shape ".to_owned();
                s.append(shape.as_str());
                s.append(" needs ");
                s.append(decimal_string(*expected as u64).as_str());
                s.append(" elements, got ");
                s.append(decimal_string(*got as u64).as_str());
                s
            },
            TensorError::ShapeMismatch { expected, got } => {
                let mut s = "shape mismatch: expected ".to_owned();
                s.append(expected.as_str());
                s.append(", got ");
                s.append(got.as_str());
                s
            },
            TensorError::RankMismatch { expected, got } => {
                let mut s = "rank mismatch: expected ".to_owned();
                s.append(decimal_string(*expected as u64).as_str());
                s.append(", got ");
                s.append(decimal_string(*got as u64).as_str());
                s
            },
            TensorError::IndexOutOfBounds { axis, index, dim } => {
                let mut s = "index ".to_owned();
                s.append(decimal_string(*index as u64).as_str());
                s.append(" out of bounds for axis ");
                s.append(decimal_string(*axis as u64).as_str());
                s.append(" of size ");
                s.append(decimal_string(*dim as u64).as_str());
                s
            },
            TensorError::MatMulIncompatible { lhs, rhs } => {
                let mut s = "matmul incompatible shapes: ".to_owned();
                s.append(lhs.as_str());
                s.append(" \u{d7} ");
                s.append(rhs.as_str());
                s.append(" (inner dims must match)");
                s
            },
        }
    }
}

/// Display text of a tokenizer error.
pub open spec fn tokenizer_error_text(e: TokenizerError) -> Seq<char> {
    match e {
        TokenizerError::MissingKey { key } => "missing tokenizer metadata key '"@ + key@ + "'"@,
        TokenizerError::InvalidType { key, reason } => "invalid type for tokenizer key '"@ + key@
            + "': "@ + reason@,
        TokenizerError::LengthMismatch { key, expected, got } =>
            "tokenizer array length mismatch for '"@ + key@ + "': expected "@ + decimal(
            expected as nat,
        ) + ", got "@ + decimal(got as nat),
        TokenizerError::UnknownTokenId { id, vocab_size } => "token id "@ + decimal(id as nat)
            + " out of range for vocabulary size "@ + decimal(vocab_size as nat),
        TokenizerError::EncodeFailure { context } => "failed to encode text near "@ + debug_text(
            context@,
        ) + ": no matching vocabulary piece"@,
        TokenizerError::InvalidSpecialToken { name, id, vocab_size } => "special token '"@ + name@
            + "' id "@ + decimal(id as nat) + " out of range for vocabulary size "@ + decimal(
            vocab_size as nat,
        ),
        TokenizerError::InvalidUtf8 { reason } => "decoded token bytes are not valid UTF-8: "@
            + reason@,
    }
}

impl TokenizerError {
    /// The error's display text.
    pub fn message(&self) -> (res: String)
        ensures
            res@ == tokenizer_error_text(*self),
    {
        match self {
            TokenizerError::MissingKey { key } => {
                let mut s = "missing tokenizer metadata key '".to_owned();
                s.append(key);
                s.append("'");
                s
            },
            TokenizerError::InvalidType { key, reason } => {
                let mut s = "invalid type for tokenizer key '".to_owned();
                s.append(key);
                s.append("': ");
                s.append(reason.as_str());
                s
            },
            TokenizerError::LengthMismatch { key, expected, got } => {
                let mut s = "tokenizer array length mismatch for '".to_owned();
                s.append(key);
                s.append("': expected ");
                s.append(decimal_string(*expected as u64).as_str());
                s.append(", got ");
                s.append(decimal_string(*got as u64).as_str());
                s
            },
            TokenizerError::UnknownTokenId { id, vocab_size } => {
                let mut s = "token id ".to_owned();
                s.append(decimal_string(*id as u64).as_str());
                s.append(" out of range for vocabulary size ");
                s.append(decimal_string(*vocab_size as u64).as_str());
                s
            },
            TokenizerError::EncodeFailure { context } => {
                let mut s = "failed to encode text near ".to_owned();
                s.append(str_debug(context.as_str()).as_str());
                s.append(": no matching vocabulary piece");
                s
            },
            TokenizerError::InvalidSpecialToken { name, id, vocab_size } => {
                let mut s = "special token '".to_owned();
                s.append(name);
                s.append("' id ");
                s.append(decimal_string(*id as u64).as_str());
                s.append(" out of range for vocabulary size ");
                s.append(decimal_string(*vocab_size as u64).as_str());
                s
            },
            TokenizerError::InvalidUtf8 { reason } => {
                let mut s = "decoded token bytes are not valid UTF-8: ".to_owned();
                s.append(reason.as_str());
                s
            },
        }
    }
}

/// Display text of a weights error.
pub open spec fn weights_error_text(e: WeightsError) -> Seq<char> {
    match e {
        WeightsError::TensorNotFound { name } => "weight tensor '"@ + name@ + "' not found in GGUF"@,
        WeightsError::InvalidElementCount { name } => "invalid element count for tensor '"@ + name@
            + "'"@,
        WeightsError::UnsupportedType { name, ggml_type } => "unsupported ggml type for tensor '"@
            + name@ + "': "@ + ggml_type_text(ggml_type),
        WeightsError::MisalignedElements { name, numel, block_size, ggml_type } => "tensor '"@
            + name@ + "' numel "@ + decimal(numel as nat) + " is not a multiple of block size "@
            + decimal(block_size as nat) + " for "@ + ggml_type_text(ggml_type),
        WeightsError::OutOfBounds { name, start, end, file_len, ggml_type } => "tensor '"@ + name@
            + "' payload ["@ + decimal(start as nat) + ".."@ + decimal(end as nat)
            + ") exceeds file length "@ + decimal(file_len as nat) + " (type "@ + ggml_type_text(
            ggml_type,
        ) + ")"@,
        WeightsError::DequantNotImplemented { name, ggml_type } => "cannot materialize tensor '"@
            + name@ + "' as f32 from "@ + ggml_type_text(ggml_type) + " (dequant not implemented)"@,
        WeightsError::InvalidFloatPayload { name, got } => "tensor '"@ + name@
            + "' f32/f16 payload has unexpected byte length "@ + decimal(got as nat),
        WeightsError::Mmap { reason } => "failed to memory-map GGUF file: "@ + reason@,
    }
}

impl WeightsError {
    /// The error's display text.
    pub fn message(&self) -> (res: String)
        ensures
            res@ == weights_error_text(*self),
    {
        match self {
            WeightsError::TensorNotFound { name } => {
                let mut s = "weight tensor '".to_owned();
                s.append(name.as_str());
                s.append("' not found in GGUF");
                s
            },
            WeightsError::InvalidElementCount { name } => {
                let mut s = "invalid element count for tensor '".to_owned();
                s.append(name.as_str());
                s.append("'");
                s
            },
            WeightsError::UnsupportedType { name, ggml_type } => {
                let mut s = "unsupported ggml type for tensor '".to_owned();
                s.append(name.as_str());
                s.append("': ");
                s.append(ggml_type_display(*ggml_type).as_str());
                s
            },
            WeightsError::MisalignedElements { name, numel, block_size, ggml_type } => {
                let mut s = "tensor '".to_owned();
                s.append(name.as_str());
                s.append("' numel ");
                s.append(decimal_string(*numel).as_str());
                s.append(" is not a multiple of block size ");
                s.append(decimal_string(*block_size).as_str());
                s.append(" for ");
                s.append(ggml_type_display(*ggml_type).as_str());
                s
            },
            WeightsError::OutOfBounds { name, start, end, file_len, ggml_type } => {
                let mut s = "tensor '".to_owned();
                s.append(name.as_str());
                s.append("' payload [");
                s.append(decimal_string(*start).as_str());
                s.append("..");
                s.append(decimal_string(*end).as_str());
                s.append(") exceeds file length ");
                s.append(decimal_string(*file_len).as_str());
                s.append(" (type ");
                s.append(ggml_type_display(*ggml_type).as_str());
                s.append(")");
                s
            },
            WeightsError::DequantNotImplemented { name, ggml_type } => {
                let mut s = "cannot materialize tensor '".to_owned();
                s.append(name.as_str());
                s.append("' as f32 from ");
                s.append(ggml_type_display(*ggml_type).as_str());
                s.append(" (dequant not implemented)");
                s
            },
            WeightsError::InvalidFloatPayload { name, got } => {
                let mut s = "tensor '".to_owned();
                s.append(name.as_str());
                s.append("' f32/f16 payload has unexpected byte length ");
                s.append(decimal_string(*got as u64).as_str());
                s
            },
            WeightsError::Mmap { reason } => {
                let mut s = "failed to memory-map GGUF file: ".to_owned();
                s.append(reason.as_str());
                s
            },
        }
    }
}

/// Display text of a model error.
pub open spec fn model_error_text(e: ModelError) -> Seq<char> {
    match e {
        ModelError::MissingArchitecture => "missing general.architecture metadata key"@,
        ModelError::UnsupportedArchitecture { architecture } => "unsupported model architecture '"@
            + architecture@ + "'"@,
        ModelError::MissingKey { key } => "missing model metadata key '"@ + key@ + "'"@,
        ModelError::InvalidType { key, reason } => "invalid type for model key '"@ + key@ + "': "@
            + reason@,
        ModelError::InvalidConfig { reason } => "invalid model configuration: "@ + reason@,
    }
}

impl ModelError {
    /// The error's display text.
    pub fn message(&self) -> (res: String)
        ensures
            res@ == model_error_text(*self),
    {
        match self {
            ModelError::MissingArchitecture => "missing general.architecture metadata key".to_owned(),
            ModelError::UnsupportedArchitecture { architecture } => {
                let mut s = "unsupported model architecture '".to_owned();
                s.append(architecture.as_str());
                s.append("'");
                s
            },
            ModelError::MissingKey { key } => {
                let mut s = "missing model metadata key '".to_owned();
                s.append(key.as_str());
                s.append("'");
                s
            },
            ModelError::InvalidType { key, reason } => {
                let mut s = "invalid type for model key '".to_owned();
                s.append(key.as_str());
                s.append("': ");
                s.append(reason.as_str());
                s
            },
            ModelError::InvalidConfig { reason } => {
                let mut s = "invalid model configuration: ".to_owned();
                s.append(reason.as_str());
                s
            },
        }
    }
}

/// Display text of a layers error.
pub open spec fn layers_error_text(e: LayersError) -> Seq<char> {
    match e {
        LayersError::MissingWeight { name } => "layer weight '"@ + name@ + "' not found"@,
        LayersError::InvalidWeightShape { name, reason } => "invalid shape for weight '"@ + name@
            + "': "@ + reason@,
        LayersError::ConfigMismatch { name, reason } => "weight '"@ + name@
            + "' does not match model config: "@ + reason@,
        LayersError::TokenOutOfRange { id, vocab_size } => "token id "@ + decimal(id as nat)
            + " out of range for vocabulary size "@ + decimal(vocab_size as nat),
        LayersError::InvalidActivationShape { op, reason } => "invalid activation shape for "@ + op@
            + ": "@ + reason@,
        LayersError::RopePositionOutOfRange { position, max_position } => "RoPE position "@
            + decimal(position as nat) + " exceeds cache length "@ + decimal(max_position as nat),
    }
}

impl LayersError {
    /// The error's display text.
    pub fn message(&self) -> (res: String)
        ensures
            res@ == layers_error_text(*self),
    {
        match self {
            LayersError::MissingWeight { name } => {
                let mut s = "layer weight '".to_owned();
                s.append(name);
                s.append("' not found");
                s
            },
            LayersError::InvalidWeightShape { name, reason } => {
                let mut s = "invalid shape for weight '".to_owned();
                s.append(name);
                s.append("': ");
                s.append(reason.as_str());
                s
            },
            LayersError::ConfigMismatch { name, reason } => {
                let mut s = "weight '".to_owned();
                s.append(name);
                s.append("' does not match model config: ");
                s.append(reason.as_str());
                s
            },
            LayersError::TokenOutOfRange { id, vocab_size } => {
                let mut s = "token id ".to_owned();
                s.append(decimal_string(*id as u64).as_str());
                s.append(" out of range for vocabulary size ");
                s.append(decimal_string(*vocab_size as u64).as_str());
                s
            },
            LayersError::InvalidActivationShape { op, reason } => {
                let mut s = "invalid activation shape for ".to_owned();
                s.append(op);
                s.append(": ");
                s.append(reason.as_str());
                s
            },
            LayersError::RopePositionOutOfRange { position, max_position } => {
                let mut s = "RoPE position ".to_owned();
                s.append(decimal_string(*position as u64).as_str());
                s.append(" exceeds cache length ");
                s.append(decimal_string(*max_position as u64).as_str());
                s
            },
        }
    }
}

} // verus!
