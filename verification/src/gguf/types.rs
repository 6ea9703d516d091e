//! GGUF constants and wire-format enumerations.

use vstd::prelude::*;

use super::error::GgufError;

verus! {

/// Magic bytes at offset 0 (`G G U F`).
pub const GGUF_MAGIC: [u8; 4] = [71u8, 71u8, 85u8, 70u8];

/// Current structural format version.
pub const GGUF_VERSION_V3: u32 = 3;

/// Previous structural version still common in the wild.
pub const GGUF_VERSION_V2: u32 = 2;

/// Versions accepted by [`crate::gguf::GgufFile::parse`].
pub const SUPPORTED_VERSIONS: [u32; 2] = [GGUF_VERSION_V2, GGUF_VERSION_V3];

/// Default tensor-data alignment when `general.alignment` is absent.
pub const DEFAULT_ALIGNMENT: u64 = 32;

/// Metadata key that overrides [`DEFAULT_ALIGNMENT`].
pub const ALIGNMENT_KEY: &'static str = "general.alignment";

/// Standardized architecture key.
pub const ARCHITECTURE_KEY: &'static str = "general.architecture";

/// Standardized display-name key.
pub const NAME_KEY: &'static str = "general.name";

/// `gguf_metadata_value_type` tags.
#[derive(Debug, Clone, Copy, PartialEq, Eq, Hash, Structural)]
pub enum MetadataValueType {
    U8,
    I8,
    U16,
    I16,
    U32,
    I32,
    F32,
    Bool,
    String,
    Array,
    U64,
    I64,
    F64,
}

/// Wire tag of each metadata value type.
pub open spec fn value_type_tag(t: MetadataValueType) -> u32 {
    match t {
        MetadataValueType::U8 => 0,
        MetadataValueType::I8 => 1,
        MetadataValueType::U16 => 2,
        MetadataValueType::I16 => 3,
        MetadataValueType::U32 => 4,
        MetadataValueType::I32 => 5,
        MetadataValueType::F32 => 6,
        MetadataValueType::Bool => 7,
        MetadataValueType::String => 8,
        MetadataValueType::Array => 9,
        MetadataValueType::U64 => 10,
        MetadataValueType::I64 => 11,
        MetadataValueType::F64 => 12,
    }
}

/// Decoding of the thirteen known metadata type tags (`0..=12`).
pub open spec fn value_type_of_tag(value: u32) -> MetadataValueType {
    match value {
        0 => MetadataValueType::U8,
        1 => MetadataValueType::I8,
        2 => MetadataValueType::U16,
        3 => MetadataValueType::I16,
        4 => MetadataValueType::U32,
        5 => MetadataValueType::I32,
        6 => MetadataValueType::F32,
        7 => MetadataValueType::Bool,
        8 => MetadataValueType::String,
        9 => MetadataValueType::Array,
        10 => MetadataValueType::U64,
        11 => MetadataValueType::I64,
        _ => MetadataValueType::F64,
    }
}

/// Type tags round-trip: decoding the wire tag of a type yields that type,
/// and every known tag is the wire tag of the type it decodes to.
pub proof fn lemma_value_type_tag_round_trip(t: MetadataValueType, tag: u32)
    ensures
        value_type_of_tag(value_type_tag(t)) == t,
        value_type_tag(t) <= 12,
        tag <= 12 ==> value_type_tag(value_type_of_tag(tag)) == tag,
{
}

impl MetadataValueType {
    /// Decode a raw type tag.
    ///
    /// Tags `0..=12` name the thirteen value types; any other tag is
    /// reported as [`GgufError::UnknownValueType`].
    pub fn from_u32(value: u32) -> (res: Result<Self, GgufError>)
        ensures
            value <= 12 ==> res == Ok::<Self, GgufError>(value_type_of_tag(value)),
            value > 12 ==> res == Err::<Self, GgufError>(GgufError::UnknownValueType { type_id: value }),
    {
        match value {
            0 => Ok(Self::U8),
            1 => Ok(Self::I8),
            2 => Ok(Self::U16),
            3 => Ok(Self::I16),
            4 => Ok(Self::U32),
            5 => Ok(Self::I32),
            6 => Ok(Self::F32),
            7 => Ok(Self::Bool),
            8 => Ok(Self::String),
            9 => Ok(Self::Array),
            10 => Ok(Self::U64),
            11 => Ok(Self::I64),
            12 => Ok(Self::F64),
            other => Err(GgufError::UnknownValueType { type_id: other }),
        }
    }

    /// Wire tag of this value type.
    pub fn to_u32(self) -> (tag: u32)
        ensures
            tag == value_type_tag(self),
    {
        match self {
            Self::U8 => 0,
            Self::I8 => 1,
            Self::U16 => 2,
            Self::I16 => 3,
            Self::U32 => 4,
            Self::I32 => 5,
            Self::F32 => 6,
            Self::Bool => 7,
            Self::String => 8,
            Self::Array => 9,
            Self::U64 => 10,
            Self::I64 => 11,
            Self::F64 => 12,
        }
    }
}

/// `ggml_type` used by tensor info records.
///
/// Unknown future tags are preserved as [`GgmlType::Unknown`] so inspection
/// still works when ggml adds formats this runtime does not yet dequantize.
#[allow(non_camel_case_types)]
#[derive(Debug, Clone, Copy, PartialEq, Eq, Hash, Structural)]
pub enum GgmlType {
    /// 32-bit float
    F32,
    /// 16-bit float
    F16,
    /// 4-bit quantization, block variant 0
    Q4_0,
    /// 4-bit quantization, block variant 1
    Q4_1,
    /// 5-bit quantization, block variant 0
    Q5_0,
    /// 5-bit quantization, block variant 1
    Q5_1,
    /// 8-bit quantization, block variant 0
    Q8_0,
    /// 8-bit quantization, block variant 1
    Q8_1,
    /// k-quant Q2
    Q2K,
    /// k-quant Q3
    Q3K,
    /// k-quant Q4
    Q4K,
    /// k-quant Q5
    Q5K,
    /// k-quant Q6
    Q6K,
    /// k-quant Q8
    Q8K,
    /// Importance-matrix `IQ2_XXS`
    Iq2Xxs,
    /// Importance-matrix `IQ2_XS`
    Iq2Xs,
    /// Importance-matrix `IQ3_XXS`
    Iq3Xxs,
    /// Importance-matrix `IQ1_S`
    Iq1S,
    /// Importance-matrix `IQ4_NL`
    Iq4Nl,
    /// Importance-matrix `IQ3_S`
    Iq3S,
    /// Importance-matrix `IQ2_S`
    Iq2S,
    /// Importance-matrix `IQ4_XS`
    Iq4Xs,
    /// signed 8-bit integer
    I8,
    /// signed 16-bit integer
    I16,
    /// signed 32-bit integer
    I32,
    /// signed 64-bit integer
    I64,
    /// 64-bit float
    F64,
    /// Importance-matrix `IQ1_M`
    Iq1M,
    /// bfloat16
    Bf16,
    /// Ternary quant `TQ1_0`
    Tq1_0,
    /// Ternary quant `TQ2_0`
    Tq2_0,
    /// Microscaling FP4 (`MXFP4`)
    Mxfp4,
    /// Forward-compatible catch-all for tags ggml adds later.
    Unknown(u32),
}

/// Decoding table from raw `ggml_type` tags.
pub open spec fn ggml_type_from_tag(value: u32) -> GgmlType {
    match value {
        0 => GgmlType::F32,
        1 => GgmlType::F16,
        2 => GgmlType::Q4_0,
        3 => GgmlType::Q4_1,
        6 => GgmlType::Q5_0,
        7 => GgmlType::Q5_1,
        8 => GgmlType::Q8_0,
        9 => GgmlType::Q8_1,
        10 => GgmlType::Q2K,
        11 => GgmlType::Q3K,
        12 => GgmlType::Q4K,
        13 => GgmlType::Q5K,
        14 => GgmlType::Q6K,
        15 => GgmlType::Q8K,
        16 => GgmlType::Iq2Xxs,
        17 => GgmlType::Iq2Xs,
        18 => GgmlType::Iq3Xxs,
        19 => GgmlType::Iq1S,
        20 => GgmlType::Iq4Nl,
        21 => GgmlType::Iq3S,
        22 => GgmlType::Iq2S,
        23 => GgmlType::Iq4Xs,
        24 => GgmlType::I8,
        25 => GgmlType::I16,
        26 => GgmlType::I32,
        27 => GgmlType::I64,
        28 => GgmlType::F64,
        29 => GgmlType::Iq1M,
        30 => GgmlType::Bf16,
        34 => GgmlType::Tq1_0,
        35 => GgmlType::Tq2_0,
        39 => GgmlType::Mxfp4,
        other => GgmlType::Unknown(other),
    }
}

/// Stable lowercase name of each type.
pub open spec fn ggml_type_name(t: GgmlType) -> &'static str {
    match t {
        GgmlType::F32 => "f32",
        GgmlType::F16 => "f16",
        GgmlType::Q4_0 => "q4_0",
        GgmlType::Q4_1 => "q4_1",
        GgmlType::Q5_0 => "q5_0",
        GgmlType::Q5_1 => "q5_1",
        GgmlType::Q8_0 => "q8_0",
        GgmlType::Q8_1 => "q8_1",
        GgmlType::Q2K => "q2_k",
        GgmlType::Q3K => "q3_k",
        GgmlType::Q4K => "q4_k",
        GgmlType::Q5K => "q5_k",
        GgmlType::Q6K => "q6_k",
        GgmlType::Q8K => "q8_k",
        GgmlType::Iq2Xxs => "iq2_xxs",
        GgmlType::Iq2Xs => "iq2_xs",
        GgmlType::Iq3Xxs => "iq3_xxs",
        GgmlType::Iq1S => "iq1_s",
        GgmlType::Iq4Nl => "iq4_nl",
        GgmlType::Iq3S => "iq3_s",
        GgmlType::Iq2S => "iq2_s",
        GgmlType::Iq4Xs => "iq4_xs",
        GgmlType::I8 => "i8",
        GgmlType::I16 => "i16",
        GgmlType::I32 => "i32",
        GgmlType::I64 => "i64",
        GgmlType::F64 => "f64",
        GgmlType::Iq1M => "iq1_m",
        GgmlType::Bf16 => "bf16",
        GgmlType::Tq1_0 => "tq1_0",
        GgmlType::Tq2_0 => "tq2_0",
        GgmlType::Mxfp4 => "mxfp4",
        GgmlType::Unknown(_) => "unknown",
    }
}

/// Type named `s` among the known types, told apart by length and by the
/// first character where the names of that length differ.
spec fn ggml_type_named(s: Seq<char>) -> Option<GgmlType> {
    if s.len() == 2 {
        Some(GgmlType::I8)
    } else if s.len() == 3 {
        if s[0] == 'f' {
            if s[1] == '1' {
                Some(GgmlType::F16)
            } else if s[1] == '3' {
                Some(GgmlType::F32)
            } else {
                Some(GgmlType::F64)
            }
        } else {
            if s[1] == '1' {
                Some(GgmlType::I16)
            } else if s[1] == '3' {
                Some(GgmlType::I32)
            } else {
                Some(GgmlType::I64)
            }
        }
    } else if s.len() == 4 {
        if s[0] == 'b' {
            Some(GgmlType::Bf16)
        } else {
            if s[1] == '2' {
                Some(GgmlType::Q2K)
            } else if s[1] == '3' {
                Some(GgmlType::Q3K)
            } else if s[1] == '4' {
                if s[3] == '0' {
                    Some(GgmlType::Q4_0)
                } else if s[3] == '1' {
                    Some(GgmlType::Q4_1)
                } else {
                    Some(GgmlType::Q4K)
                }
            } else if s[1] == '5' {
                if s[3] == '0' {
                    Some(GgmlType::Q5_0)
                } else if s[3] == '1' {
                    Some(GgmlType::Q5_1)
                } else {
                    Some(GgmlType::Q5K)
                }
            } else if s[1] == '6' {
                Some(GgmlType::Q6K)
            } else {
                if s[3] == '0' {
                    Some(GgmlType::Q8_0)
                } else if s[3] == '1' {
                    Some(GgmlType::Q8_1)
                } else {
                    Some(GgmlType::Q8K)
                }
            }
        }
    } else if s.len() == 5 {
        if s[0] == 'i' {
            if s[2] == '1' {
                if s[4] == 'm' {
                    Some(GgmlType::Iq1M)
                } else {
                    Some(GgmlType::Iq1S)
                }
            } else if s[2] == '2' {
                Some(GgmlType::Iq2S)
            } else {
                Some(GgmlType::Iq3S)
            }
        } else if s[0] == 'm' {
            Some(GgmlType::Mxfp4)
        } else {
            if s[2] == '1' {
                Some(GgmlType::Tq1_0)
            } else {
                Some(GgmlType::Tq2_0)
            }
        }
    } else if s.len() == 6 {
        if s[2] == '2' {
            Some(GgmlType::Iq2Xs)
        } else {
            if s[4] == 'n' {
                Some(GgmlType::Iq4Nl)
            } else {
                Some(GgmlType::Iq4Xs)
            }
        }
    } else if s.len() == 7 {
        if s[0] == 'i' {
            if s[2] == '2' {
                Some(GgmlType::Iq2Xxs)
            } else {
                Some(GgmlType::Iq3Xxs)
            }
        } else {
            None
        }
    } else {
        None
    }
}

/// Type names tell the known types apart: two types with the same name are
/// the same type (any two unknown types share `unknown`), no known type is
/// named `unknown`, and a tag's type is named `unknown` exactly when the tag
/// is not a known one.
pub proof fn lemma_ggml_type_name_injective(a: GgmlType, b: GgmlType, tag: u32)
    ensures
        ggml_type_name(a)@ == ggml_type_name(b)@ ==> a == b || (a is Unknown && b is Unknown),
        !(a is Unknown) ==> ggml_type_name(a)@ != "unknown"@,
        (ggml_type_name(ggml_type_from_tag(tag))@ == "unknown"@) <==> ggml_type_from_tag(tag) is Unknown,
{
    lemma_ggml_type_named(a);
    lemma_ggml_type_named(b);
    lemma_ggml_type_named(ggml_type_from_tag(tag));
}

proof fn lemma_ggml_type_named(t: GgmlType)
    ensures
        ggml_type_named(ggml_type_name(t)@) == (if t is Unknown { None } else { Some(t) }),
        ggml_type_named("unknown"@) is None,
{
    reveal_strlit("unknown");
    match t {
        GgmlType::F32 => {
            reveal_strlit("f32");
        },
        GgmlType::F16 => {
            reveal_strlit("f16");
        },
        GgmlType::Q4_0 => {
            reveal_strlit("q4_0");
        },
        GgmlType::Q4_1 => {
            reveal_strlit("q4_1");
        },
        GgmlType::Q5_0 => {
            reveal_strlit("q5_0");
        },
        GgmlType::Q5_1 => {
            reveal_strlit("q5_1");
        },
        GgmlType::Q8_0 => {
            reveal_strlit("q8_0");
        },
        GgmlType::Q8_1 => {
            reveal_strlit("q8_1");
        },
        GgmlType::Q2K => {
            reveal_strlit("q2_k");
        },
        GgmlType::Q3K => {
            reveal_strlit("q3_k");
        },
        GgmlType::Q4K => {
            reveal_strlit("q4_k");
        },
        GgmlType::Q5K => {
            reveal_strlit("q5_k");
        },
        GgmlType::Q6K => {
            reveal_strlit("q6_k");
        },
        GgmlType::Q8K => {
            reveal_strlit("q8_k");
        },
        GgmlType::Iq2Xxs => {
            reveal_strlit("iq2_xxs");
        },
        GgmlType::Iq2Xs => {
            reveal_strlit("iq2_xs");
        },
        GgmlType::Iq3Xxs => {
            reveal_strlit("iq3_xxs");
        },
        GgmlType::Iq1S => {
            reveal_strlit("iq1_s");
        },
        GgmlType::Iq4Nl => {
            reveal_strlit("iq4_nl");
        },
        GgmlType::Iq3S => {
            reveal_strlit("iq3_s");
        },
        GgmlType::Iq2S => {
            reveal_strlit("iq2_s");
        },
        GgmlType::Iq4Xs => {
            reveal_strlit("iq4_xs");
        },
        GgmlType::I8 => {
            reveal_strlit("i8");
        },
        GgmlType::I16 => {
            reveal_strlit("i16");
        },
        GgmlType::I32 => {
            reveal_strlit("i32");
        },
        GgmlType::I64 => {
            reveal_strlit("i64");
        },
        GgmlType::F64 => {
            reveal_strlit("f64");
        },
        GgmlType::Iq1M => {
            reveal_strlit("iq1_m");
        },
        GgmlType::Bf16 => {
            reveal_strlit("bf16");
        },
        GgmlType::Tq1_0 => {
            reveal_strlit("tq1_0");
        },
        GgmlType::Tq2_0 => {
            reveal_strlit("tq2_0");
        },
        GgmlType::Mxfp4 => {
            reveal_strlit("mxfp4");
        },
        GgmlType::Unknown(_) => {
            reveal_strlit("unknown");
        },
    }
}

/// ggml's numbering of its tensor types (the `ggml_type` enum); an unknown
/// type keeps the tag it was read with.
pub open spec fn ggml_tag(t: GgmlType) -> u32 {
    match t {
        GgmlType::F32 => 0,
        GgmlType::F16 => 1,
        GgmlType::Q4_0 => 2,
        GgmlType::Q4_1 => 3,
        GgmlType::Q5_0 => 6,
        GgmlType::Q5_1 => 7,
        GgmlType::Q8_0 => 8,
        GgmlType::Q8_1 => 9,
        GgmlType::Q2K => 10,
        GgmlType::Q3K => 11,
        GgmlType::Q4K => 12,
        GgmlType::Q5K => 13,
        GgmlType::Q6K => 14,
        GgmlType::Q8K => 15,
        GgmlType::Iq2Xxs => 16,
        GgmlType::Iq2Xs => 17,
        GgmlType::Iq3Xxs => 18,
        GgmlType::Iq1S => 19,
        GgmlType::Iq4Nl => 20,
        GgmlType::Iq3S => 21,
        GgmlType::Iq2S => 22,
        GgmlType::Iq4Xs => 23,
        GgmlType::I8 => 24,
        GgmlType::I16 => 25,
        GgmlType::I32 => 26,
        GgmlType::I64 => 27,
        GgmlType::F64 => 28,
        GgmlType::Iq1M => 29,
        GgmlType::Bf16 => 30,
        GgmlType::Tq1_0 => 34,
        GgmlType::Tq2_0 => 35,
        GgmlType::Mxfp4 => 39,
        GgmlType::Unknown(v) => v,
    }
}

/// Decoding agrees with ggml's numbering: every tag decodes to the type ggml
/// numbers with that tag (so the decoded type's ggml tag is the tag read),
/// and each known type's ggml tag decodes back to that type.
pub proof fn lemma_ggml_tag_round_trip(t: GgmlType, tag: u32)
    ensures
        ggml_tag(ggml_type_from_tag(tag)) == tag,
        !(t is Unknown) ==> ggml_type_from_tag(ggml_tag(t)) == t,
{
}

impl GgmlType {
    /// Decode a raw `ggml_type` tag; unrecognised tags become [`GgmlType::Unknown`].
    pub fn from_u32(value: u32) -> (res: Self)
        ensures
            res == ggml_type_from_tag(value),
    {
        match value {
            0 => Self::F32,
            1 => Self::F16,
            2 => Self::Q4_0,
            3 => Self::Q4_1,
            6 => Self::Q5_0,
            7 => Self::Q5_1,
            8 => Self::Q8_0,
            9 => Self::Q8_1,
            10 => Self::Q2K,
            11 => Self::Q3K,
            12 => Self::Q4K,
            13 => Self::Q5K,
            14 => Self::Q6K,
            15 => Self::Q8K,
            16 => Self::Iq2Xxs,
            17 => Self::Iq2Xs,
            18 => Self::Iq3Xxs,
            19 => Self::Iq1S,
            20 => Self::Iq4Nl,
            21 => Self::Iq3S,
            22 => Self::Iq2S,
            23 => Self::Iq4Xs,
            24 => Self::I8,
            25 => Self::I16,
            26 => Self::I32,
            27 => Self::I64,
            28 => Self::F64,
            29 => Self::Iq1M,
            30 => Self::Bf16,
            34 => Self::Tq1_0,
            35 => Self::Tq2_0,
            39 => Self::Mxfp4,
            other => Self::Unknown(other),
        }
    }

    /// Stable lowercase name for logs and inspection.
    pub fn name(self) -> (res: &'static str)
        ensures
            res == ggml_type_name(self),
    {
        match self {
            Self::F32 => "f32",
            Self::F16 => "f16",
            Self::Q4_0 => "q4_0",
            Self::Q4_1 => "q4_1",
            Self::Q5_0 => "q5_0",
            Self::Q5_1 => "q5_1",
            Self::Q8_0 => "q8_0",
            Self::Q8_1 => "q8_1",
            Self::Q2K => "q2_k",
            Self::Q3K => "q3_k",
            Self::Q4K => "q4_k",
            Self::Q5K => "q5_k",
            Self::Q6K => "q6_k",
            Self::Q8K => "q8_k",
            Self::Iq2Xxs => "iq2_xxs",
            Self::Iq2Xs => "iq2_xs",
            Self::Iq3Xxs => "iq3_xxs",
            Self::Iq1S => "iq1_s",
            Self::Iq4Nl => "iq4_nl",
            Self::Iq3S => "iq3_s",
            Self::Iq2S => "iq2_s",
            Self::Iq4Xs => "iq4_xs",
            Self::I8 => "i8",
            Self::I16 => "i16",
            Self::I32 => "i32",
            Self::I64 => "i64",
            Self::F64 => "f64",
            Self::Iq1M => "iq1_m",
            Self::Bf16 => "bf16",
            Self::Tq1_0 => "tq1_0",
            Self::Tq2_0 => "tq2_0",
            Self::Mxfp4 => "mxfp4",
            Self::Unknown(_) => "unknown",
        }
    }
}

/// `offset` rounded up to the next multiple of `alignment` (unchanged when
/// `alignment` is zero).
pub open spec fn spec_align_offset(offset: int, alignment: int) -> int {
    if alignment == 0 || offset % alignment == 0 {
        offset
    } else {
        offset + (alignment - offset % alignment)
    }
}

/// The rounded offset is a multiple of the alignment within one step of `offset`.
pub proof fn lemma_align_offset_bounds(offset: int, alignment: int)
    requires
        offset >= 0,
        alignment > 0,
    ensures
        spec_align_offset(offset, alignment) % alignment == 0,
        offset <= spec_align_offset(offset, alignment) < offset + alignment,
        offset < alignment ==> spec_align_offset(offset, alignment) <= alignment,
{
    if offset < alignment {
        vstd::arithmetic::div_mod::lemma_small_mod(offset as nat, alignment as nat);
    }
    let q = offset / alignment;
    vstd::arithmetic::div_mod::lemma_fundamental_div_mod(offset, alignment);
    if offset % alignment != 0 {
        assert(spec_align_offset(offset, alignment) == (q + 1) * alignment) by (nonlinear_arith)
            requires
                offset == alignment * q + offset % alignment,
                spec_align_offset(offset, alignment) == offset + (alignment - offset % alignment),
        ;
        vstd::arithmetic::div_mod::lemma_mod_multiples_basic(q + 1, alignment);
    }
}

/// Round `offset` up to the next multiple of `alignment`.
///
/// A zero alignment leaves the offset unchanged.
pub fn align_offset(offset: u64, alignment: u64) -> (res: u64)
    requires
        spec_align_offset(offset as int, alignment as int) <= u64::MAX,
    ensures
        res == spec_align_offset(offset as int, alignment as int),
        alignment > 0 ==> res % alignment == 0 && offset <= res < offset + alignment,
{
    if alignment == 0 {
        return offset;
    }
    proof {
        lemma_align_offset_bounds(offset as int, alignment as int);
    }
    let rem = offset % alignment;
    if rem == 0 {
        offset
    } else {
        offset + (alignment - rem)
    }
}

/// Variant name of a value type, as `Debug` prints it.
pub open spec fn value_type_debug_name(t: MetadataValueType) -> Seq<char> {
    match t {
        MetadataValueType::U8 => "U8"@,
        MetadataValueType::I8 => "I8"@,
        MetadataValueType::U16 => "U16"@,
        MetadataValueType::I16 => "I16"@,
        MetadataValueType::U32 => "U32"@,
        MetadataValueType::I32 => "I32"@,
        MetadataValueType::F32 => "F32"@,
        MetadataValueType::Bool => "Bool"@,
        MetadataValueType::String => "String"@,
        MetadataValueType::Array => "Array"@,
        MetadataValueType::U64 => "U64"@,
        MetadataValueType::I64 => "I64"@,
        MetadataValueType::F64 => "F64"@,
    }
}

impl MetadataValueType {
    /// Variant name, as `Debug` prints it.
    pub(crate) fn debug_name(self) -> (res: &'static str)
        ensures
            res@ == value_type_debug_name(self),
    {
        match self {
            MetadataValueType::U8 => "U8",
            MetadataValueType::I8 => "I8",
            MetadataValueType::U16 => "U16",
            MetadataValueType::I16 => "I16",
            MetadataValueType::U32 => "U32",
            MetadataValueType::I32 => "I32",
            MetadataValueType::F32 => "F32",
            MetadataValueType::Bool => "Bool",
            MetadataValueType::String => "String",
            MetadataValueType::Array => "Array",
            MetadataValueType::U64 => "U64",
            MetadataValueType::I64 => "I64",
            MetadataValueType::F64 => "F64",
        }
    }
}

} // verus!
