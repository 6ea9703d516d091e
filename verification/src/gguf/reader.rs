//! Little-endian binary reader with a running byte offset, and the
//! mathematical model of the GGUF wire encoding that it implements.

use vstd::prelude::*;
use vstd::utf8::{decode_utf8, valid_utf8};

use super::error::{GgufError, GgufFault};
use super::limits;
use super::types::{value_type_of_tag, MetadataValueType};
use super::value::{MetaValue, MetadataArray, MetadataValue, values_view};
use crate::text::utf8_string;
use crate::text::utf8_error_text;

verus! {

// ---------------------------------------------------------------------------
// Wire model
// ---------------------------------------------------------------------------

/// The `n` bytes at `pos`, or end-of-input in `context`.
pub open spec fn take_bytes(s: Seq<u8>, pos: int, n: int, context: Seq<char>) -> Result<
    (Seq<u8>, int),
    GgufFault,
> {
    if pos + n <= s.len() {
        Ok((s.subrange(pos, pos + n), pos + n))
    } else {
        Err(GgufFault::UnexpectedEof { context })
    }
}

/// Little-endian value of two bytes.
pub open spec fn le_u16(b: Seq<u8>) -> u16 {
    (b[0] + 0x100 * b[1]) as u16
}

/// Little-endian value of four bytes.
pub open spec fn le_u32(b: Seq<u8>) -> u32 {
    (b[0] + 0x100 * b[1] + 0x1_0000 * b[2] + 0x100_0000 * b[3]) as u32
}

/// Little-endian value of eight bytes.
pub open spec fn le_u64(b: Seq<u8>) -> u64 {
    (b[0] + 0x100 * b[1] + 0x1_0000 * b[2] + 0x100_0000 * b[3] + 0x1_0000_0000 * b[4]
        + 0x100_0000_0000 * b[5] + 0x1_0000_0000_0000 * b[6] + 0x100_0000_0000_0000
        * b[7]) as u64
}

/// Two's-complement reading of a byte.
pub open spec fn twos_i8(v: u8) -> i8 {
    if v < 0x80 { v as i8 } else { (v - 0x100) as i8 }
}

/// Two's-complement reading of a 16-bit word.
pub open spec fn twos_i16(v: u16) -> i16 {
    if v < 0x8000 { v as i16 } else { (v - 0x1_0000) as i16 }
}

/// Two's-complement reading of a 32-bit word.
pub open spec fn twos_i32(v: u32) -> i32 {
    if v < 0x8000_0000 { v as i32 } else { (v - 0x1_0000_0000) as i32 }
}

/// Two's-complement reading of a 64-bit word.
pub open spec fn twos_i64(v: u64) -> i64 {
    if v < 0x8000_0000_0000_0000 { v as i64 } else { (v - 0x1_0000_0000_0000_0000) as i64 }
}

pub open spec fn read_u8_at(s: Seq<u8>, pos: int, context: Seq<char>) -> Result<(u8, int), GgufFault> {
    match take_bytes(s, pos, 1, context) {
        Ok((b, p)) => Ok((b[0], p)),
        Err(e) => Err(e),
    }
}

pub open spec fn read_u16_at(s: Seq<u8>, pos: int, context: Seq<char>) -> Result<(u16, int), GgufFault> {
    match take_bytes(s, pos, 2, context) {
        Ok((b, p)) => Ok((le_u16(b), p)),
        Err(e) => Err(e),
    }
}

pub open spec fn read_u32_at(s: Seq<u8>, pos: int, context: Seq<char>) -> Result<(u32, int), GgufFault> {
    match take_bytes(s, pos, 4, context) {
        Ok((b, p)) => Ok((le_u32(b), p)),
        Err(e) => Err(e),
    }
}

pub open spec fn read_u64_at(s: Seq<u8>, pos: int, context: Seq<char>) -> Result<(u64, int), GgufFault> {
    match take_bytes(s, pos, 8, context) {
        Ok((b, p)) => Ok((le_u64(b), p)),
        Err(e) => Err(e),
    }
}

pub open spec fn read_i8_at(s: Seq<u8>, pos: int, context: Seq<char>) -> Result<(i8, int), GgufFault> {
    match read_u8_at(s, pos, context) {
        Ok((v, p)) => Ok((twos_i8(v), p)),
        Err(e) => Err(e),
    }
}

pub open spec fn read_i16_at(s: Seq<u8>, pos: int, context: Seq<char>) -> Result<(i16, int), GgufFault> {
    match read_u16_at(s, pos, context) {
        Ok((v, p)) => Ok((twos_i16(v), p)),
        Err(e) => Err(e),
    }
}

pub open spec fn read_i32_at(s: Seq<u8>, pos: int, context: Seq<char>) -> Result<(i32, int), GgufFault> {
    match read_u32_at(s, pos, context) {
        Ok((v, p)) => Ok((twos_i32(v), p)),
        Err(e) => Err(e),
    }
}

pub open spec fn read_i64_at(s: Seq<u8>, pos: int, context: Seq<char>) -> Result<(i64, int), GgufFault> {
    match read_u64_at(s, pos, context) {
        Ok((v, p)) => Ok((twos_i64(v), p)),
        Err(e) => Err(e),
    }
}

/// A boolean byte: `0` is false, `1` is true, anything else is rejected.
pub open spec fn read_bool_at(s: Seq<u8>, pos: int, context: Seq<char>) -> Result<(bool, int), GgufFault> {
    match read_u8_at(s, pos, context) {
        Ok((v, p)) => if v == 0 {
            Ok((false, p))
        } else if v == 1 {
            Ok((true, p))
        } else {
            Err(GgufFault::InvalidBool { value: v })
        },
        Err(e) => Err(e),
    }
}

/// A length-prefixed (`u64`) UTF-8 string of at most `max_len` bytes.
pub open spec fn read_string_at(s: Seq<u8>, pos: int, context: Seq<char>, max_len: u64) -> Result<
    (Seq<char>, int),
    GgufFault,
> {
    match read_u64_at(s, pos, context) {
        Err(e) => Err(e),
        Ok((len, p)) => if len > max_len {
            Err(GgufFault::LimitExceeded { context, got: len, limit: max_len })
        } else {
            match take_bytes(s, p, len as int, context) {
                Err(e) => Err(e),
                Ok((b, p2)) => if valid_utf8(b) {
                    Ok((decode_utf8(b), p2))
                } else {
                    Err(GgufFault::InvalidUtf8 { context })
                },
            }
        },
    }
}

/// A raw `u32` type tag decoded as a metadata value type.
pub open spec fn read_value_type_at(s: Seq<u8>, pos: int, context: Seq<char>) -> Result<
    (MetadataValueType, int),
    GgufFault,
> {
    match read_u32_at(s, pos, context) {
        Err(e) => Err(e),
        Ok((raw, p)) => if raw <= 12 {
            Ok((value_type_of_tag(raw), p))
        } else {
            Err(GgufFault::UnknownValueType { type_id: raw })
        },
    }
}

/// Termination measure for nested arrays.
pub open spec fn depth_budget(depth: u32) -> nat {
    if depth < limits::MAX_ARRAY_DEPTH { (limits::MAX_ARRAY_DEPTH - depth) as nat } else { 0 }
}

/// One metadata value of type `ty` at array nesting `depth`.
pub open spec fn read_value_at(s: Seq<u8>, pos: int, ty: MetadataValueType, depth: u32) -> Result<
    (MetaValue, int),
    GgufFault,
>
    decreases depth_budget(depth), 0nat,
{
    match ty {
        MetadataValueType::U8 => match read_u8_at(s, pos, "metadata u8"@) {
            Ok((v, p)) => Ok((MetaValue::U8(v), p)),
            Err(e) => Err(e),
        },
        MetadataValueType::I8 => match read_i8_at(s, pos, "metadata i8"@) {
            Ok((v, p)) => Ok((MetaValue::I8(v), p)),
            Err(e) => Err(e),
        },
        MetadataValueType::U16 => match read_u16_at(s, pos, "metadata u16"@) {
            Ok((v, p)) => Ok((MetaValue::U16(v), p)),
            Err(e) => Err(e),
        },
        MetadataValueType::I16 => match read_i16_at(s, pos, "metadata i16"@) {
            Ok((v, p)) => Ok((MetaValue::I16(v), p)),
            Err(e) => Err(e),
        },
        MetadataValueType::U32 => match read_u32_at(s, pos, "metadata u32"@) {
            Ok((v, p)) => Ok((MetaValue::U32(v), p)),
            Err(e) => Err(e),
        },
        MetadataValueType::I32 => match read_i32_at(s, pos, "metadata i32"@) {
            Ok((v, p)) => Ok((MetaValue::I32(v), p)),
            Err(e) => Err(e),
        },
        MetadataValueType::F32 => match read_u32_at(s, pos, "metadata f32"@) {
            Ok((v, p)) => Ok((MetaValue::F32(v), p)),
            Err(e) => Err(e),
        },
        MetadataValueType::Bool => match read_bool_at(s, pos, "metadata bool"@) {
            Ok((v, p)) => Ok((MetaValue::Bool(v), p)),
            Err(e) => Err(e),
        },
        MetadataValueType::String => match read_string_at(
            s,
            pos,
            "metadata string"@,
            limits::MAX_STRING_LEN,
        ) {
            Ok((v, p)) => Ok((MetaValue::Str(v), p)),
            Err(e) => Err(e),
        },
        MetadataValueType::U64 => match read_u64_at(s, pos, "metadata u64"@) {
            Ok((v, p)) => Ok((MetaValue::U64(v), p)),
            Err(e) => Err(e),
        },
        MetadataValueType::I64 => match read_i64_at(s, pos, "metadata i64"@) {
            Ok((v, p)) => Ok((MetaValue::I64(v), p)),
            Err(e) => Err(e),
        },
        MetadataValueType::F64 => match read_u64_at(s, pos, "metadata f64"@) {
            Ok((v, p)) => Ok((MetaValue::F64(v), p)),
            Err(e) => Err(e),
        },
        MetadataValueType::Array => if depth >= limits::MAX_ARRAY_DEPTH {
            Err(
                GgufFault::LimitExceeded {
                    context: "metadata array depth"@,
                    got: (depth + 1) as u64,
                    limit: limits::MAX_ARRAY_DEPTH as u64,
                },
            )
        } else {
            match read_value_type_at(s, pos, "metadata array element type"@) {
                Err(e) => Err(e),
                Ok((ety, p1)) => match read_u64_at(s, p1, "metadata array length"@) {
                    Err(e) => Err(e),
                    Ok((len, p2)) => if len > limits::MAX_ARRAY_LEN {
                        Err(
                            GgufFault::LimitExceeded {
                                context: "metadata array length"@,
                                got: len,
                                limit: limits::MAX_ARRAY_LEN,
                            },
                        )
                    } else {
                        match read_values_at(s, p2, ety, (depth + 1) as u32, len as nat) {
                            Err(e) => Err(e),
                            Ok((vals, p3)) => Ok((MetaValue::Array(ety, vals), p3)),
                        }
                    },
                },
            }
        },
    }
}

/// `n` consecutive values of type `ty` (array elements at nesting `depth`).
pub open spec fn read_values_at(
    s: Seq<u8>,
    pos: int,
    ty: MetadataValueType,
    depth: u32,
    n: nat,
) -> Result<(Seq<MetaValue>, int), GgufFault>
    decreases depth_budget(depth), n + 1,
{
    if n == 0 {
        Ok((Seq::empty(), pos))
    } else {
        match read_values_at(s, pos, ty, depth, (n - 1) as nat) {
            Err(e) => Err(e),
            Ok((vals, p)) => match read_value_at(s, p, ty, depth) {
                Err(e) => Err(e),
                Ok((v, p2)) => Ok((vals.push(v), p2)),
            },
        }
    }
}

/// A failing element stops the whole array: once the element after the first
/// `i` fails, every longer read fails with the same error.
pub proof fn lemma_read_values_error(
    s: Seq<u8>,
    pos: int,
    ty: MetadataValueType,
    depth: u32,
    i: nat,
    n: nat,
    e: GgufFault,
)
    requires
        i < n,
        read_values_at(s, pos, ty, depth, i) is Ok,
        read_value_at(s, read_values_at(s, pos, ty, depth, i)->Ok_0.1, ty, depth) == Err::<
            (MetaValue, int),
            GgufFault,
        >(e),
    ensures
        read_values_at(s, pos, ty, depth, n) == Err::<(Seq<MetaValue>, int), GgufFault>(e),
    decreases n,
{
    if n > i + 1 {
        lemma_read_values_error(s, pos, ty, depth, i, (n - 1) as nat, e);
    }
}

// ---------------------------------------------------------------------------
// Exec reader
// ---------------------------------------------------------------------------

/// Outcome of one read: the exec result agrees with the wire model, and the
/// cursor moved to the model's end position on success.
pub(crate) open spec fn read_agrees<A>(
    before: GgufReader,
    after: GgufReader,
    model: Result<(A, int), GgufFault>,
    res: Result<A, GgufError>,
) -> bool {
    &&& after.data() == before.data()
    &&& after.wf()
    &&& match model {
        Ok((v, p)) => res == Ok::<A, GgufError>(v) && after.pos() == p,
        Err(f) => res matches Err(e) && e@ == f,
    }
}

/// Streaming GGUF decoder over an in-memory byte buffer.
pub(crate) struct GgufReader<'a> {
    pub(crate) inner: &'a [u8],
    pub(crate) position: usize,
}

impl<'a> GgufReader<'a> {
    /// The bytes being decoded.
    pub(crate) open spec fn data(&self) -> Seq<u8> {
        self.inner@
    }

    /// Bytes consumed so far.
    pub(crate) open spec fn pos(&self) -> int {
        self.position as int
    }

    /// The cursor never passes the end of the buffer.
    pub(crate) open spec fn wf(&self) -> bool {
        self.position <= self.inner@.len()
    }

    /// Wrap a buffer; position starts at 0.
    pub(crate) fn new(inner: &'a [u8]) -> (r: Self)
        ensures
            r.data() == inner@,
            r.pos() == 0,
            r.wf(),
    {
        Self { inner, position: 0 }
    }

    /// Bytes consumed so far.
    pub(crate) fn position(&self) -> (p: u64)
        ensures
            p == self.pos(),
    {
        self.position as u64
    }

    /// The next `n` bytes, advancing the cursor past them.
    pub(crate) fn read_exact(&mut self, n: usize, context: &'static str) -> (res: Result<
        &'a [u8],
        GgufError,
    >)
        requires
            old(self).wf(),
        ensures
            final(self).data() == old(self).data(),
            final(self).wf(),
            match take_bytes(old(self).data(), old(self).pos(), n as int, context@) {
                Ok((b, p)) => res matches Ok(r) && r@ == b && final(self).pos() == p,
                Err(f) => res matches Err(e) && e@ == f,
            },
    {
        let data: &'a [u8] = self.inner;
        if n > data.len() - self.position {
            return Err(GgufError::UnexpectedEof { context });
        }
        let start = self.position;
        self.position = start + n;
        Ok(&data[start..start + n])
    }

    pub(crate) fn read_u8(&mut self, context: &'static str) -> (res: Result<u8, GgufError>)
        requires
            old(self).wf(),
        ensures
            read_agrees(*old(self), *final(self), read_u8_at(old(self).data(), old(self).pos(), context@), res),
    {
        match self.read_exact(1, context) {
            Ok(b) => Ok(b[0]),
            Err(e) => Err(e),
        }
    }

    pub(crate) fn read_u16(&mut self, context: &'static str) -> (res: Result<u16, GgufError>)
        requires
            old(self).wf(),
        ensures
            read_agrees(*old(self), *final(self), read_u16_at(old(self).data(), old(self).pos(), context@), res),
    {
        match self.read_exact(2, context) {
            Ok(b) => Ok(b[0] as u16 + 0x100 * (b[1] as u16)),
            Err(e) => Err(e),
        }
    }

    pub(crate) fn read_u32(&mut self, context: &'static str) -> (res: Result<u32, GgufError>)
        requires
            old(self).wf(),
        ensures
            read_agrees(*old(self), *final(self), read_u32_at(old(self).data(), old(self).pos(), context@), res),
    {
        match self.read_exact(4, context) {
            Ok(b) => Ok(
                b[0] as u32 + 0x100 * (b[1] as u32) + 0x1_0000 * (b[2] as u32) + 0x100_0000 * (
                b[3] as u32),
            ),
            Err(e) => Err(e),
        }
    }

    pub(crate) fn read_u64(&mut self, context: &'static str) -> (res: Result<u64, GgufError>)
        requires
            old(self).wf(),
        ensures
            read_agrees(*old(self), *final(self), read_u64_at(old(self).data(), old(self).pos(), context@), res),
    {
        match self.read_exact(8, context) {
            Ok(b) => Ok(
                b[0] as u64 + 0x100 * (b[1] as u64) + 0x1_0000 * (b[2] as u64) + 0x100_0000 * (
                b[3] as u64) + 0x1_0000_0000 * (b[4] as u64) + 0x100_0000_0000 * (b[5] as u64)
                    + 0x1_0000_0000_0000 * (b[6] as u64) + 0x100_0000_0000_0000 * (b[7] as u64),
            ),
            Err(e) => Err(e),
        }
    }

    pub(crate) fn read_i8(&mut self, context: &'static str) -> (res: Result<i8, GgufError>)
        requires
            old(self).wf(),
        ensures
            read_agrees(*old(self), *final(self), read_i8_at(old(self).data(), old(self).pos(), context@), res),
    {
        match self.read_u8(context) {
            Ok(v) => if v < 0x80 {
                Ok(v as i8)
            } else {
                Ok((v as i16 - 0x100) as i8)
            },
            Err(e) => Err(e),
        }
    }

    pub(crate) fn read_i16(&mut self, context: &'static str) -> (res: Result<i16, GgufError>)
        requires
            old(self).wf(),
        ensures
            read_agrees(*old(self), *final(self), read_i16_at(old(self).data(), old(self).pos(), context@), res),
    {
        match self.read_u16(context) {
            Ok(v) => if v < 0x8000 {
                Ok(v as i16)
            } else {
                Ok((v as i32 - 0x1_0000) as i16)
            },
            Err(e) => Err(e),
        }
    }

    pub(crate) fn read_i32(&mut self, context: &'static str) -> (res: Result<i32, GgufError>)
        requires
            old(self).wf(),
        ensures
            read_agrees(*old(self), *final(self), read_i32_at(old(self).data(), old(self).pos(), context@), res),
    {
        match self.read_u32(context) {
            Ok(v) => if v < 0x8000_0000 {
                Ok(v as i32)
            } else {
                Ok((v as i64 - 0x1_0000_0000) as i32)
            },
            Err(e) => Err(e),
        }
    }

    pub(crate) fn read_i64(&mut self, context: &'static str) -> (res: Result<i64, GgufError>)
        requires
            old(self).wf(),
        ensures
            read_agrees(*old(self), *final(self), read_i64_at(old(self).data(), old(self).pos(), context@), res),
    {
        match self.read_u64(context) {
            Ok(v) => if v < 0x8000_0000_0000_0000 {
                Ok(v as i64)
            } else {
                Ok(-((u64::MAX - v) as i64) - 1)
            },
            Err(e) => Err(e),
        }
    }

    pub(crate) fn read_bool(&mut self, context: &'static str) -> (res: Result<bool, GgufError>)
        requires
            old(self).wf(),
        ensures
            read_agrees(*old(self), *final(self), read_bool_at(old(self).data(), old(self).pos(), context@), res),
    {
        match self.read_u8(context) {
            Ok(0) => Ok(false),
            Ok(1) => Ok(true),
            Ok(value) => Err(GgufError::InvalidBool { value }),
            Err(e) => Err(e),
        }
    }

    /// Length-prefixed UTF-8 string (`u64` length + bytes).
    pub(crate) fn read_string(&mut self, context: &'static str, max_len: u64) -> (res: Result<
        String,
        GgufError,
    >)
        requires
            old(self).wf(),
            max_len <= limits::MAX_STRING_LEN,
        ensures
            final(self).data() == old(self).data(),
            final(self).wf(),
            match read_string_at(old(self).data(), old(self).pos(), context@, max_len) {
                Ok((v, p)) => res matches Ok(r) && r@ == v && final(self).pos() == p,
                Err(f) => res matches Err(e) && e@ == f,
            },
    {
        let len = match self.read_u64(context) {
            Ok(len) => len,
            Err(e) => return Err(e),
        };
        if len > max_len {
            return Err(GgufError::LimitExceeded { context, got: len, limit: max_len });
        }
        let bytes = match self.read_exact(len as usize, context) {
            Ok(b) => b,
            Err(e) => return Err(e),
        };
        match utf8_string(vstd::slice::slice_to_vec(bytes)) {
            Ok(text) => Ok(text),
            Err(err) => Err(GgufError::InvalidUtf8 { context, reason: utf8_error_text(&err) }),
        }
    }

    pub(crate) fn read_value_type(&mut self, context: &'static str) -> (res: Result<
        MetadataValueType,
        GgufError,
    >)
        requires
            old(self).wf(),
        ensures
            read_agrees(*old(self), *final(self), read_value_type_at(old(self).data(), old(self).pos(), context@), res),
    {
        match self.read_u32(context) {
            Ok(raw) => MetadataValueType::from_u32(raw),
            Err(e) => Err(e),
        }
    }

    /// One metadata value of type `value_type`; arrays nest at most
    /// `MAX_ARRAY_DEPTH` levels below `depth`.
    pub(crate) fn read_value(&mut self, value_type: MetadataValueType, depth: u32) -> (res: Result<
        MetadataValue,
        GgufError,
    >)
        requires
            old(self).wf(),
        ensures
            final(self).data() == old(self).data(),
            final(self).wf(),
            match read_value_at(old(self).data(), old(self).pos(), value_type, depth) {
                Ok((v, p)) => res matches Ok(r) && r.view_value() == v && final(self).pos() == p,
                Err(f) => res matches Err(e) && e@ == f,
            },
        decreases depth_budget(depth), 1nat,
    {
        match value_type {
            MetadataValueType::U8 => match self.read_u8("metadata u8") {
                Ok(v) => Ok(MetadataValue::U8(v)),
                Err(e) => Err(e),
            },
            MetadataValueType::I8 => match self.read_i8("metadata i8") {
                Ok(v) => Ok(MetadataValue::I8(v)),
                Err(e) => Err(e),
            },
            MetadataValueType::U16 => match self.read_u16("metadata u16") {
                Ok(v) => Ok(MetadataValue::U16(v)),
                Err(e) => Err(e),
            },
            MetadataValueType::I16 => match self.read_i16("metadata i16") {
                Ok(v) => Ok(MetadataValue::I16(v)),
                Err(e) => Err(e),
            },
            MetadataValueType::U32 => match self.read_u32("metadata u32") {
                Ok(v) => Ok(MetadataValue::U32(v)),
                Err(e) => Err(e),
            },
            MetadataValueType::I32 => match self.read_i32("metadata i32") {
                Ok(v) => Ok(MetadataValue::I32(v)),
                Err(e) => Err(e),
            },
            MetadataValueType::F32 => match self.read_u32("metadata f32") {
                Ok(v) => Ok(MetadataValue::F32(v)),
                Err(e) => Err(e),
            },
            MetadataValueType::Bool => match self.read_bool("metadata bool") {
                Ok(v) => Ok(MetadataValue::Bool(v)),
                Err(e) => Err(e),
            },
            MetadataValueType::U64 => match self.read_u64("metadata u64") {
                Ok(v) => Ok(MetadataValue::U64(v)),
                Err(e) => Err(e),
            },
            MetadataValueType::I64 => match self.read_i64("metadata i64") {
                Ok(v) => Ok(MetadataValue::I64(v)),
                Err(e) => Err(e),
            },
            MetadataValueType::F64 => match self.read_u64("metadata f64") {
                Ok(v) => Ok(MetadataValue::F64(v)),
                Err(e) => Err(e),
            },
            MetadataValueType::String => match self.read_string(
                "metadata string",
                limits::MAX_STRING_LEN,
            ) {
                Ok(v) => Ok(MetadataValue::String(v)),
                Err(e) => Err(e),
            },
            MetadataValueType::Array => match self.read_array(depth) {
                Ok(a) => Ok(MetadataValue::Array(a)),
                Err(e) => Err(e),
            },
        }
    }

    #[verifier::loop_isolation(false)]
    fn read_array(&mut self, depth: u32) -> (res: Result<MetadataArray, GgufError>)
        requires
            old(self).wf(),
        ensures
            final(self).data() == old(self).data(),
            final(self).wf(),
            match read_value_at(old(self).data(), old(self).pos(), MetadataValueType::Array, depth) {
                Ok((v, p)) => res matches Ok(r) && MetadataValue::Array(r).view_value() == v
                    && final(self).pos() == p,
                Err(f) => res matches Err(e) && e@ == f,
            },
        decreases depth_budget(depth), 0nat,
    {
        if depth >= limits::MAX_ARRAY_DEPTH {
            return Err(
                GgufError::LimitExceeded {
                    context: "metadata array depth",
                    got: depth as u64 + 1,
                    limit: limits::MAX_ARRAY_DEPTH as u64,
                },
            );
        }
        let element_type = match self.read_value_type("metadata array element type") {
            Ok(t) => t,
            Err(e) => return Err(e),
        };
        let len = match self.read_u64("metadata array length") {
            Ok(len) => len,
            Err(e) => return Err(e),
        };
        if len > limits::MAX_ARRAY_LEN {
            return Err(
                GgufError::LimitExceeded {
                    context: "metadata array length",
                    got: len,
                    limit: limits::MAX_ARRAY_LEN,
                },
            );
        }
        let ghost data = self.data();
        let ghost start = self.pos();
        let mut values: Vec<MetadataValue> = Vec::new();
        let mut i: u64 = 0;
        while i < len
            invariant
                self.wf(),
                self.data() == data,
                depth < limits::MAX_ARRAY_DEPTH,
                i <= len,
                read_values_at(data, start, element_type, (depth + 1) as u32, i as nat) == Ok::<
                    (Seq<MetaValue>, int),
                    GgufFault,
                >((values_view(values@), self.pos())),
            decreases len - i,
        {
            let ghost before = values@;
            match self.read_value(element_type, depth + 1) {
                Ok(v) => {
                    values.push(v);
                    assert(values@.drop_last() == before);
                },
                Err(e) => {
                    proof {
                        lemma_read_values_error(
                            data,
                            start,
                            element_type,
                            (depth + 1) as u32,
                            i as nat,
                            len as nat,
                            e@,
                        );
                    }
                    return Err(e);
                },
            }
            i = i + 1;
        }
        Ok(MetadataArray { element_type, values })
    }
}

} // verus!
