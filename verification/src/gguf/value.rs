//! Decoded GGUF metadata values.
//!
//! Floating-point metadata is kept as its IEEE-754 bit pattern (`F32` as
//! `u32`, `F64` as `u64`): the library never computes with floats, and the
//! bit pattern round-trips exactly to the `f32` / `f64` that the file holds.

use vstd::prelude::*;

use super::types::MetadataValueType;

verus! {

/// One metadata value from a GGUF key-value pair.
#[derive(Debug, PartialEq)]
pub enum MetadataValue {
    /// Unsigned 8-bit integer.
    U8(u8),
    /// Signed 8-bit integer.
    I8(i8),
    /// Unsigned 16-bit integer.
    U16(u16),
    /// Signed 16-bit integer.
    I16(i16),
    /// Unsigned 32-bit integer.
    U32(u32),
    /// Signed 32-bit integer.
    I32(i32),
    /// 32-bit float, as its IEEE-754 bit pattern.
    F32(u32),
    /// Boolean (`0` / `1` on the wire).
    Bool(bool),
    /// UTF-8 string.
    String(String),
    /// Homogeneous array (element type recorded for round-trip / inspection).
    Array(MetadataArray),
    /// Unsigned 64-bit integer.
    U64(u64),
    /// Signed 64-bit integer.
    I64(i64),
    /// 64-bit float, as its IEEE-754 bit pattern.
    F64(u64),
}

/// Array metadata payload.
#[derive(Debug, PartialEq)]
pub struct MetadataArray {
    /// Declared element type from the wire header of this array.
    pub element_type: MetadataValueType,
    /// Elements (`len` on the wire is `values.len()`).
    pub values: Vec<MetadataValue>,
}

/// One metadata key-value entry.
#[derive(Debug, PartialEq)]
pub struct MetadataEntry {
    /// Hierarchical ASCII key (e.g. `general.architecture`).
    pub key: String,
    /// Typed value.
    pub value: MetadataValue,
}

/// Mathematical model of a metadata value: strings as character sequences,
/// arrays as sequences of models.
pub enum MetaValue {
    U8(u8),
    I8(i8),
    U16(u16),
    I16(i16),
    U32(u32),
    I32(i32),
    F32(u32),
    Bool(bool),
    Str(Seq<char>),
    Array(MetadataValueType, Seq<MetaValue>),
    U64(u64),
    I64(i64),
    F64(u64),
}

/// Model of a sequence of values.
pub open spec fn values_view(vs: Seq<MetadataValue>) -> Seq<MetaValue>
    decreases vs,
{
    if vs.len() == 0 {
        Seq::empty()
    } else {
        values_view(vs.drop_last()).push(vs.last().view_value())
    }
}

/// The model of a sequence of values holds the model of each, in order.
pub proof fn lemma_values_view(vs: Seq<MetadataValue>)
    ensures
        values_view(vs).len() == vs.len(),
        forall|i: int| 0 <= i < vs.len() ==> #[trigger] values_view(vs)[i] == vs[i].view_value(),
    decreases vs.len(),
{
    if vs.len() > 0 {
        lemma_values_view(vs.drop_last());
        assert forall|i: int| 0 <= i < vs.len() implies #[trigger] values_view(vs)[i] == vs[i].view_value() by {
            if i < vs.len() - 1 {
                assert(vs.drop_last()[i] == vs[i]);
            }
        }
    }
}

impl MetadataValue {
    /// The model of this value.
    pub open spec fn view_value(&self) -> MetaValue
        decreases self,
    {
        match self {
            MetadataValue::U8(v) => MetaValue::U8(*v),
            MetadataValue::I8(v) => MetaValue::I8(*v),
            MetadataValue::U16(v) => MetaValue::U16(*v),
            MetadataValue::I16(v) => MetaValue::I16(*v),
            MetadataValue::U32(v) => MetaValue::U32(*v),
            MetadataValue::I32(v) => MetaValue::I32(*v),
            MetadataValue::F32(v) => MetaValue::F32(*v),
            MetadataValue::Bool(v) => MetaValue::Bool(*v),
            MetadataValue::String(s) => MetaValue::Str(s@),
            MetadataValue::Array(a) => MetaValue::Array(a.element_type, values_view(a.values@)),
            MetadataValue::U64(v) => MetaValue::U64(*v),
            MetadataValue::I64(v) => MetaValue::I64(*v),
            MetadataValue::F64(v) => MetaValue::F64(*v),
        }
    }
}

/// Wire type of a value model.
pub open spec fn meta_value_type(v: MetaValue) -> MetadataValueType {
    match v {
        MetaValue::U8(_) => MetadataValueType::U8,
        MetaValue::I8(_) => MetadataValueType::I8,
        MetaValue::U16(_) => MetadataValueType::U16,
        MetaValue::I16(_) => MetadataValueType::I16,
        MetaValue::U32(_) => MetadataValueType::U32,
        MetaValue::I32(_) => MetadataValueType::I32,
        MetaValue::F32(_) => MetadataValueType::F32,
        MetaValue::Bool(_) => MetadataValueType::Bool,
        MetaValue::Str(_) => MetadataValueType::String,
        MetaValue::Array(..) => MetadataValueType::Array,
        MetaValue::U64(_) => MetadataValueType::U64,
        MetaValue::I64(_) => MetadataValueType::I64,
        MetaValue::F64(_) => MetadataValueType::F64,
    }
}

impl MetadataValue {
    /// Wire type tag for this value.
    pub fn value_type(&self) -> (t: MetadataValueType)
        ensures
            t == meta_value_type(self.view_value()),
    {
        match self {
            Self::U8(_) => MetadataValueType::U8,
            Self::I8(_) => MetadataValueType::I8,
            Self::U16(_) => MetadataValueType::U16,
            Self::I16(_) => MetadataValueType::I16,
            Self::U32(_) => MetadataValueType::U32,
            Self::I32(_) => MetadataValueType::I32,
            Self::F32(_) => MetadataValueType::F32,
            Self::Bool(_) => MetadataValueType::Bool,
            Self::String(_) => MetadataValueType::String,
            Self::Array(_) => MetadataValueType::Array,
            Self::U64(_) => MetadataValueType::U64,
            Self::I64(_) => MetadataValueType::I64,
            Self::F64(_) => MetadataValueType::F64,
        }
    }

    /// Borrow as `&str` when this is a string value.
    pub fn as_str(&self) -> (res: Option<&str>)
        ensures
            match self.view_value() {
                MetaValue::Str(s) => res matches Some(r) && r@ == s,
                _ => res is None,
            },
    {
        match self {
            Self::String(s) => Some(s.as_str()),
            _ => None,
        }
    }

    /// Copy as `u32` when the value is an unsigned 32-bit integer.
    pub fn as_u32(&self) -> (res: Option<u32>)
        ensures
            match self.view_value() {
                MetaValue::U32(v) => res == Some(v),
                _ => res is None,
            },
    {
        match self {
            Self::U32(v) => Some(*v),
            _ => None,
        }
    }

    /// Copy as `u64` when the value is an unsigned integer (32 or 64 bit).
    pub fn as_u64(&self) -> (res: Option<u64>)
        ensures
            match self.view_value() {
                MetaValue::U64(v) => res == Some(v),
                MetaValue::U32(v) => res == Some(v as u64),
                _ => res is None,
            },
    {
        match self {
            Self::U64(v) => Some(*v),
            Self::U32(v) => Some(*v as u64),
            _ => None,
        }
    }

    /// Borrow the array payload when this is an array value.
    pub fn as_array(&self) -> (res: Option<&MetadataArray>)
        ensures
            match self {
                MetadataValue::Array(a) => res == Some(a),
                _ => res is None,
            },
    {
        match self {
            Self::Array(a) => Some(a),
            _ => None,
        }
    }

    /// Copy as `i32` when the value is a signed 32-bit integer.
    pub fn as_i32(&self) -> (res: Option<i32>)
        ensures
            match self.view_value() {
                MetaValue::I32(v) => res == Some(v),
                _ => res is None,
            },
    {
        match self {
            Self::I32(v) => Some(*v),
            _ => None,
        }
    }

    /// Bit pattern of an `f32` value.
    pub fn as_f32(&self) -> (res: Option<u32>)
        ensures
            match self.view_value() {
                MetaValue::F32(v) => res == Some(v),
                _ => res is None,
            },
    {
        match self {
            Self::F32(v) => Some(*v),
            _ => None,
        }
    }
}

} // verus!
