//! Piece → text conversion rules shared by detokenizers.
//!
//! Llama-style `SentencePiece` vocabs use U+2581 (`▁`) as a word-boundary
//! mark that becomes a space in surface text. Byte pieces (`<0x0A>`) carry
//! single UTF-8 bytes that are not standalone vocabulary entries.

use vstd::prelude::*;
use vstd::utf8::encode_utf8;

use crate::text::{chars_of, string_from_chars};

verus! {

/// `SentencePiece` word-boundary marker stored inside many GGUF vocabs.
pub const SENTENCEPIECE_SPACE: char = '\u{2581}';

/// Options controlling how token ids become surface text.
#[derive(Debug, Clone, Copy, PartialEq, Eq, Structural)]
pub struct DecodeOptions {
    /// Drop BOS/EOS/PAD/UNK/separator ids declared in the special tokens.
    pub skip_special: bool,
    /// Drop pieces whose token type is control or unused.
    pub skip_control: bool,
}

impl Default for DecodeOptions {
    /// Display text: specials and control pieces are dropped.
    fn default() -> (res: Self)
        ensures
            res == (DecodeOptions { skip_special: true, skip_control: true }),
    {
        DecodeOptions { skip_special: true, skip_control: true }
    }
}

/// Value of a hexadecimal digit character, if it is one.
pub open spec fn hex_value(c: char) -> Option<u8> {
    if '0' <= c && c <= '9' {
        Some((c as u32 - '0' as u32) as u8)
    } else if 'a' <= c && c <= 'f' {
        Some((c as u32 - 'a' as u32 + 10) as u8)
    } else if 'A' <= c && c <= 'F' {
        Some((c as u32 - 'A' as u32 + 10) as u8)
    } else {
        None
    }
}

/// Byte carried by a `<0xNN>` piece: the two characters between `<0x` and
/// `>` read in base 16, where (as `u8::from_str_radix` reads them) a leading
/// `+` sign is allowed.
pub open spec fn byte_piece_value(piece: Seq<char>) -> Option<u8> {
    if piece.len() == 6 && piece[0] == '<' && piece[1] == '0' && piece[2] == 'x' && piece[5]
        == '>' {
        let (a, b) = (piece[3], piece[4]);
        match (hex_value(a), hex_value(b)) {
            (Some(x), Some(y)) => Some((16 * x + y) as u8),
            (None, Some(y)) => if a == '+' {
                Some(y)
            } else {
                None
            },
            _ => None,
        }
    } else {
        None
    }
}

/// `▁` replaced by an ASCII space, every other character kept.
pub open spec fn spaced(piece: Seq<char>) -> Seq<char> {
    piece.map_values(|c: char| if c == SENTENCEPIECE_SPACE { ' ' } else { c })
}

/// UTF-8 bytes that one vocabulary piece contributes to decoded text.
pub open spec fn piece_bytes(piece: Seq<char>) -> Seq<u8> {
    match byte_piece_value(piece) {
        Some(b) => seq![b],
        None => encode_utf8(spaced(piece)),
    }
}

fn hex_digit(c: char) -> (res: Option<u8>)
    ensures
        res == hex_value(c),
{
    if '0' <= c && c <= '9' {
        Some((c as u32 - '0' as u32) as u8)
    } else if 'a' <= c && c <= 'f' {
        Some((c as u32 - 'a' as u32 + 10) as u8)
    } else if 'A' <= c && c <= 'F' {
        Some((c as u32 - 'A' as u32 + 10) as u8)
    } else {
        None
    }
}

/// Parse `<0xNN>` byte pieces used by Llama byte-fallback vocabs.
pub fn parse_byte_piece(piece: &str) -> (res: Option<u8>)
    ensures
        res == byte_piece_value(piece@),
{
    let chars = chars_of(piece);
    if chars.len() != 6 || chars[0] != '<' || chars[1] != '0' || chars[2] != 'x' || chars[5]
        != '>' {
        return None;
    }
    let a = chars[3];
    let b = chars[4];
    match (hex_digit(a), hex_digit(b)) {
        (Some(x), Some(y)) => Some(16 * x + y),
        (None, Some(y)) => {
            if a == '+' {
                Some(y)
            } else {
                None
            }
        },
        _ => None,
    }
}

/// UTF-8 bytes of `chars`.
fn utf8_bytes(chars: &[char]) -> (res: Vec<u8>)
    ensures
        res@ == encode_utf8(chars@),
{
    let s = string_from_chars(chars);
    let bytes = s.as_str().as_bytes();
    let mut out: Vec<u8> = Vec::new();
    let mut i: usize = 0;
    while i < bytes.len()
        invariant
            i <= bytes@.len(),
            out@ == bytes@.take(i as int),
        decreases bytes@.len() - i,
    {
        proof {
            assert(bytes@.take(i + 1) =~= bytes@.take(i as int).push(bytes@[i as int]));
        }
        out.push(bytes[i]);
        i = i + 1;
    }
    assert(bytes@.take(i as int) =~= bytes@);
    out
}

/// Convert one vocabulary piece into the UTF-8 bytes it contributes.
pub fn piece_to_bytes(piece: &str) -> (res: Vec<u8>)
    ensures
        res@ == piece_bytes(piece@),
{
    if let Some(byte) = parse_byte_piece(piece) {
        let mut out: Vec<u8> = Vec::new();
        out.push(byte);
        return out;
    }
    let chars = chars_of(piece);
    let mut mapped: Vec<char> = Vec::new();
    let mut i: usize = 0;
    while i < chars.len()
        invariant
            i <= chars@.len(),
            chars@ == piece@,
            mapped@ == spaced(chars@.take(i as int)),
        decreases chars@.len() - i,
    {
        let c = chars[i];
        let out = if c == SENTENCEPIECE_SPACE {
            ' '
        } else {
            c
        };
        proof {
            assert(spaced(chars@.take(i + 1)) =~= spaced(chars@.take(i as int)).push(out));
        }
        mapped.push(out);
        i = i + 1;
    }
    assert(chars@.take(i as int) =~= chars@);
    utf8_bytes(mapped.as_slice())
}

} // verus!
