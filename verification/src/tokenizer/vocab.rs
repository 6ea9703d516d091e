//! Vocabulary tables loaded from `tokenizer.ggml.tokens` (+ optional scores/types).
//!
//! Token ids are `u32` GGUF vocabulary indices. Lookups by piece scan the
//! table; when a piece occurs twice the later id wins (as when added tokens
//! overwrite earlier ids). Scores are kept as `f32` bit patterns.

use vstd::prelude::*;

use super::error::{TokenizerError, TokenizerFault};
use super::keys;
use crate::errors::PhalanxError;
use crate::search::{last_index, lemma_last_index_is, lemma_last_index_none};
use crate::text::{decimal_string, str_eq};
use vstd::string::StringExecFns;

verus! {

/// GGUF `tokenizer.ggml.token_type` tags.
#[derive(Debug, Clone, Copy, PartialEq, Eq, Hash, Structural)]
pub enum TokenType {
    /// Ordinary vocabulary piece (tag 1).
    Normal,
    /// Unknown / OOV marker piece (tag 2).
    Unknown,
    /// Control / special structural token (tag 3).
    Control,
    /// User-defined added token (tag 4).
    UserDefined,
    /// Unused slot in a sparse vocab (tag 5).
    Unused,
    /// Single-byte fallback piece (`<0xXX>`, tag 6).
    Byte,
}

/// Token type of a raw tag; `1` and every unknown tag are `Normal`.
pub open spec fn token_type_of(value: i32) -> TokenType {
    match value {
        2 => TokenType::Unknown,
        3 => TokenType::Control,
        4 => TokenType::UserDefined,
        5 => TokenType::Unused,
        6 => TokenType::Byte,
        _ => TokenType::Normal,
    }
}

/// GGUF tag of a token type: `Normal` 1, `Unknown` 2, `Control` 3,
/// `UserDefined` 4, `Unused` 5, `Byte` 6.
pub open spec fn token_type_tag(t: TokenType) -> i32 {
    match t {
        TokenType::Normal => 1,
        TokenType::Unknown => 2,
        TokenType::Control => 3,
        TokenType::UserDefined => 4,
        TokenType::Unused => 5,
        TokenType::Byte => 6,
    }
}

/// Tags and token types convert into each other: decoding a type's tag gives
/// the type back, and a tag in `2..=6` is the tag of the type it decodes to
/// (every other tag decodes to `Normal`, tag 1).
pub proof fn lemma_token_type_tag_round_trip(t: TokenType, value: i32)
    ensures
        token_type_of(token_type_tag(t)) == t,
        2 <= value <= 6 ==> token_type_tag(token_type_of(value)) == value,
        !(2 <= value <= 6) ==> token_type_of(value) == TokenType::Normal,
{
}

impl TokenType {
    /// The type's GGUF tag.
    pub fn tag(self) -> (t: i32)
        ensures
            t == token_type_tag(self),
    {
        match self {
            TokenType::Normal => 1,
            TokenType::Unknown => 2,
            TokenType::Control => 3,
            TokenType::UserDefined => 4,
            TokenType::Unused => 5,
            TokenType::Byte => 6,
        }
    }

    /// Decode a raw type tag; unknown tags map to [`TokenType::Normal`].
    pub fn from_i32(value: i32) -> (res: Self)
        ensures
            res == token_type_of(value),
    {
        match value {
            2 => TokenType::Unknown,
            3 => TokenType::Control,
            4 => TokenType::UserDefined,
            5 => TokenType::Unused,
            6 => TokenType::Byte,
            _ => TokenType::Normal,
        }
    }

    /// Control or unused pieces are usually omitted from detokenized text.
    pub fn is_skippable_on_decode(self) -> (res: bool)
        ensures
            res == (self == TokenType::Control || self == TokenType::Unused),
    {
        match self {
            TokenType::Control | TokenType::Unused => true,
            _ => false,
        }
    }
}

/// Owned vocabulary: id → piece, with optional scores and types.
#[derive(Debug)]
pub struct Vocabulary {
    tokens: Vec<String>,
    scores: Option<Vec<u32>>,
    token_types: Option<Vec<TokenType>>,
}

/// Matches exactly `piece`.
pub open spec fn is_piece(piece: Seq<char>) -> spec_fn(Seq<char>) -> bool {
    |p: Seq<char>| p == piece
}

/// Id of `piece` in `pieces`: the last index holding it.
pub open spec fn piece_id(pieces: Seq<Seq<char>>, piece: Seq<char>) -> Option<int> {
    last_index(pieces, is_piece(piece))
}

/// An optional table is absent or has one entry per token.
pub open spec fn table_len_ok<T>(table: Option<Vec<T>>, n: nat) -> bool {
    match table {
        Some(v) => v@.len() == n,
        None => true,
    }
}

/// Type of `id` in an optional type table; `Normal` without a table or out
/// of range.
pub open spec fn token_type_at(table: Option<Seq<TokenType>>, id: u32) -> TokenType {
    match table {
        Some(t) => if id < t.len() {
            t[id as int]
        } else {
            TokenType::Normal
        },
        None => TokenType::Normal,
    }
}

/// An id found for a piece indexes that piece.
pub proof fn lemma_piece_id(pieces: Seq<Seq<char>>, piece: Seq<char>)
    ensures
        piece_id(pieces, piece) matches Some(i) ==> 0 <= i < pieces.len() && pieces[i] == piece,
{
    crate::search::lemma_last_index_spec(pieces, is_piece(piece));
}

/// Looking up the piece of an id finds an id with the same piece, never an
/// earlier one; with no later duplicate of the piece it is the id itself.
pub proof fn lemma_piece_lookup_round_trip(pieces: Seq<Seq<char>>, i: int)
    requires
        0 <= i < pieces.len(),
    ensures
        piece_id(pieces, pieces[i]) matches Some(j) && i <= j < pieces.len() && pieces[j] == pieces[i],
        (forall|k: int| i < k < pieces.len() ==> pieces[k] != pieces[i]) ==> piece_id(pieces, pieces[i]) == Some(i),
{
    let p = is_piece(pieces[i]);
    crate::search::lemma_last_index_spec(pieces, p);
    assert(p(pieces[i]));
    if forall|k: int| i < k < pieces.len() ==> pieces[k] != pieces[i] {
        assert forall|k: int| i < k < pieces.len() implies !p(#[trigger] pieces[k]) by {}
        crate::search::lemma_last_index_is(pieces, p, i);
    }
}

impl Clone for Vocabulary {
    /// A copy with the same pieces, scores and types.
    fn clone(&self) -> (res: Self)
        ensures
            res.pieces() == self.pieces(),
            res.score_table() == self.score_table(),
            res.type_table() == self.type_table(),
    {
        proof {
            use_type_invariant(self);
        }
        let tokens = self.tokens.clone();
        assert(tokens@.map_values(|t: String| t@) =~= self.tokens@.map_values(|t: String| t@));
        let scores = match &self.scores {
            Some(v) => Some(v.clone()),
            None => None,
        };
        let token_types = match &self.token_types {
            Some(v) => Some(v.clone()),
            None => None,
        };
        proof {
            if scores is Some {
                assert(scores->Some_0@ =~= self.scores->Some_0@);
            }
            if token_types is Some {
                assert(token_types->Some_0@ =~= self.token_types->Some_0@);
            }
        }
        Vocabulary { tokens, scores, token_types }
    }
}

/// Vocabulary size that still numbers every id in `u32`.
pub open spec fn ids_fit(n: int) -> bool {
    n <= 0x1_0000_0000
}

impl Vocabulary {
    /// Every id of the vocabulary is a `u32`.
    #[verifier::type_invariant]
    pub open spec fn ids_numbered(self) -> bool {
        ids_fit(self.pieces().len() as int)
    }

    /// Pieces in id order, as character sequences.
    pub closed spec fn pieces(&self) -> Seq<Seq<char>> {
        self.tokens@.map_values(|t: String| t@)
    }

    /// Scores (as `f32` bit patterns), when present.
    pub closed spec fn score_table(&self) -> Option<Seq<u32>> {
        match self.scores {
            Some(s) => Some(s@),
            None => None,
        }
    }

    /// Token types, when present.
    pub closed spec fn type_table(&self) -> Option<Seq<TokenType>> {
        match self.token_types {
            Some(t) => Some(t@),
            None => None,
        }
    }

    /// Construct from parallel arrays.
    ///
    /// Fails with [`TokenizerError::LengthMismatch`] when an optional array's
    /// length differs from the token count (scores checked first), and with
    /// [`TokenizerError::InvalidType`] when the ids would not fit in `u32`.
    pub fn new(tokens: Vec<String>, scores: Option<Vec<u32>>, token_types: Option<Vec<TokenType>>) -> (res: Result<Self, PhalanxError>)
        ensures
            !table_len_ok(scores, tokens@.len()) ==> super::error::is_tokenizer_fault(
                res,
                TokenizerFault::LengthMismatch {
                    key: keys::SCORES@,
                    expected: tokens@.len() as usize,
                    got: scores->Some_0@.len() as usize,
                },
            ),
            table_len_ok(scores, tokens@.len()) && !table_len_ok(token_types, tokens@.len())
                ==> super::error::is_tokenizer_fault(
                res,
                TokenizerFault::LengthMismatch {
                    key: keys::TOKEN_TYPE@,
                    expected: tokens@.len() as usize,
                    got: token_types->Some_0@.len() as usize,
                },
            ),
            table_len_ok(scores, tokens@.len()) && table_len_ok(token_types, tokens@.len())
                && !ids_fit(tokens@.len() as int) ==> super::error::is_tokenizer_fault(
                res,
                TokenizerFault::InvalidType { key: keys::TOKENS@ },
            ),
            table_len_ok(scores, tokens@.len()) && table_len_ok(token_types, tokens@.len())
                && ids_fit(tokens@.len() as int) ==> (res matches Ok(v) && v.pieces()
                == tokens@.map_values(|t: String| t@) && v.score_table() == (match scores {
                Some(s) => Some(s@),
                None => None::<Seq<u32>>,
            }) && v.type_table() == (match token_types {
                Some(t) => Some(t@),
                None => None::<Seq<TokenType>>,
            })),
    {
        let n = tokens.len();
        if let Some(s) = &scores {
            if s.len() != n {
                return Err(
                    PhalanxError::Tokenizer(
                        TokenizerError::LengthMismatch { key: keys::SCORES, expected: n, got: s.len() },
                    ),
                );
            }
        }
        if let Some(t) = &token_types {
            if t.len() != n {
                return Err(
                    PhalanxError::Tokenizer(
                        TokenizerError::LengthMismatch {
                            key: keys::TOKEN_TYPE,
                            expected: n,
                            got: t.len(),
                        },
                    ),
                );
            }
        }
        if n as u64 > 0x1_0000_0000u64 {
            let mut reason = "vocabulary length ".to_owned();
            reason.append(decimal_string(n as u64).as_str());
            reason.append(" exceeds u32::MAX");
            return Err(
                PhalanxError::Tokenizer(TokenizerError::InvalidType { key: keys::TOKENS, reason }),
            );
        }
        Ok(Vocabulary { tokens, scores, token_types })
    }

    /// Number of vocabulary entries.
    pub fn len(&self) -> (res: usize)
        ensures
            res == self.pieces().len(),
            ids_fit(res as int),
    {
        proof {
            use_type_invariant(self);
        }
        self.tokens.len()
    }

    /// `true` when the vocabulary has no pieces.
    pub fn is_empty(&self) -> (res: bool)
        ensures
            res == (self.pieces().len() == 0),
    {
        self.tokens.len() == 0
    }

    /// Borrow the piece string for `id`.
    ///
    /// Fails with [`TokenizerError::UnknownTokenId`] exactly when `id` is out
    /// of range.
    pub fn piece(&self, id: u32) -> (res: Result<&str, PhalanxError>)
        ensures
            id < self.pieces().len() ==> (res matches Ok(p) && p@ == self.pieces()[id as int]),
            id >= self.pieces().len() ==> super::error::is_tokenizer_fault(
                res,
                TokenizerFault::UnknownTokenId { id, vocab_size: self.pieces().len() as usize },
            ),
    {
        if (id as usize) < self.tokens.len() {
            Ok(self.tokens[id as usize].as_str())
        } else {
            Err(
                PhalanxError::Tokenizer(
                    TokenizerError::UnknownTokenId { id, vocab_size: self.tokens.len() },
                ),
            )
        }
    }

    /// Look up a piece's id (the last id holding it), if present.
    pub fn id(&self, piece: &str) -> (res: Option<u32>)
        ensures
            match piece_id(self.pieces(), piece@) {
                Some(i) => res == Some(i as u32),
                None => res is None,
            },
    {
        let ghost p = is_piece(piece@);
        let ghost pieces = self.pieces();
        let mut i: usize = self.tokens.len();
        while i > 0
            invariant
                i <= self.tokens@.len(),
                pieces == self.pieces(),
                pieces.len() == self.tokens@.len(),
                p == is_piece(piece@),
                forall|j: int| i <= j < pieces.len() ==> !p(#[trigger] pieces[j]),
            decreases i,
        {
            i = i - 1;
            assert(pieces[i as int] == self.tokens@[i as int]@);
            if str_eq(self.tokens[i].as_str(), piece) {
                proof {
                    lemma_last_index_is(pieces, p, i as int);
                }
                return Some(i as u32);
            }
        }
        proof {
            lemma_last_index_none(pieces, p);
        }
        None
    }

    /// Token type for `id`, defaulting to [`TokenType::Normal`] (no type
    /// table, or `id` out of range).
    pub fn token_type(&self, id: u32) -> (res: TokenType)
        ensures
            res == token_type_at(self.type_table(), id),
    {
        match &self.token_types {
            Some(types) => {
                if (id as usize) < types.len() {
                    types[id as usize]
                } else {
                    TokenType::Normal
                }
            },
            None => TokenType::Normal,
        }
    }

    /// Score bit pattern for `id`, when a score table exists and `id` is in range.
    pub fn score(&self, id: u32) -> (res: Option<u32>)
        ensures
            res == (match self.score_table() {
                Some(s) => if id < s.len() {
                    Some(s[id as int])
                } else {
                    None
                },
                None => None,
            }),
    {
        match &self.scores {
            Some(scores) => {
                if (id as usize) < scores.len() {
                    Some(scores[id as usize])
                } else {
                    None
                }
            },
            None => None,
        }
    }

    /// Borrow all pieces in id order.
    pub fn tokens(&self) -> (res: &[String])
        ensures
            res@.map_values(|t: String| t@) == self.pieces(),
    {
        self.tokens.as_slice()
    }
}

} // verus!
