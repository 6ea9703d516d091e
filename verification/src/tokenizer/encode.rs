//! Text → token id encoders: greedy longest match (SentencePiece-style
//! vocabularies) and ranked BPE merges (GPT-2 style).

use vstd::prelude::*;
use vstd::string::StringExecFns;

use super::decode::SENTENCEPIECE_SPACE;
use super::error::{is_tokenizer_fault, TokenizerError, TokenizerFault};
use super::vocab::{piece_id, Vocabulary};
use crate::errors::PhalanxError;
use crate::search::{first_index, last_index, lemma_first_index_is, lemma_first_index_none, lemma_last_index_is, lemma_last_index_none};
use crate::text::{chars_of, str_eq, string_from_chars};

verus! {

/// One BPE merge rule: replace adjacent `(left, right)` with `left + right`.
#[derive(Debug, Clone, PartialEq, Eq)]
pub struct MergeRule {
    /// Left piece.
    pub left: String,
    /// Right piece.
    pub right: String,
}

/// Rule parsed from a merge line: split at the first space; both sides
/// must be non-empty.
pub open spec fn merge_line(line: Seq<char>) -> Option<(Seq<char>, Seq<char>)> {
    match first_index(line, |c: char| c == ' ') {
        Some(k) => if k > 0 && k + 1 < line.len() {
            Some((line.subrange(0, k), line.subrange(k + 1, line.len() as int)))
        } else {
            None
        },
        None => None,
    }
}

impl MergeRule {
    /// Parse a GGUF merge line `"left right"`.
    pub fn parse(line: &str) -> (res: Option<Self>)
        ensures
            match merge_line(line@) {
                Some((l, r)) => res matches Some(m) && m.left@ == l && m.right@ == r,
                None => res is None,
            },
    {
        let chars = chars_of(line);
        let ghost p = |c: char| c == ' ';
        let mut k: usize = 0;
        while k < chars.len()
            invariant
                k <= chars@.len(),
                chars@ == line@,
                p == (|c: char| c == ' '),
                forall|j: int| 0 <= j < k ==> !p(#[trigger] chars@[j]),
            decreases chars@.len() - k,
        {
            if chars[k] == ' ' {
                proof {
                    lemma_first_index_is(chars@, p, k as int);
                }
                if k == 0 || k + 1 == chars.len() {
                    return None;
                }
                let left = string_from_chars(vstd::slice::slice_subrange(chars.as_slice(), 0, k));
                let right = string_from_chars(
                    vstd::slice::slice_subrange(chars.as_slice(), k + 1, chars.len()),
                );
                return Some(MergeRule { left, right });
            }
            k = k + 1;
        }
        proof {
            lemma_first_index_none(chars@, p);
        }
        None
    }

    /// Concatenated piece produced by applying this merge.
    pub fn merged(&self) -> (res: String)
        ensures
            res@ == self.left@ + self.right@,
    {
        let mut out = self.left.clone();
        out.append(self.right.as_str());
        out
    }
}

// ---------------------------------------------------------------------------
// Greedy longest match
// ---------------------------------------------------------------------------

/// Surface text in the `SentencePiece` alphabet: spaces become `▁`, and a
/// leading `▁` is added unless the text already starts with one.
pub open spec fn sentencepiece_text(text: Seq<char>) -> Seq<char> {
    if text.len() == 0 {
        Seq::empty()
    } else {
        let replaced = text.map_values(|c: char| if c == ' ' { SENTENCEPIECE_SPACE } else { c });
        if replaced[0] == SENTENCEPIECE_SPACE {
            replaced
        } else {
            seq![SENTENCEPIECE_SPACE] + replaced
        }
    }
}

/// Upper-case hexadecimal digit of `d < 16`.
pub open spec fn hex_upper(d: u8) -> char {
    if d < 10 {
        ((d + 48) as u8) as char
    } else {
        ((d + 55) as u8) as char
    }
}

/// The byte-fallback piece `<0xHH>` of a byte (two upper-case hex digits).
pub open spec fn byte_piece_text(b: u8) -> Seq<char> {
    seq!['<', '0', 'x', hex_upper(b / 16), hex_upper(b % 16), '>']
}

/// Longest end `e` in `(i, end]` whose span `chars[i..e]` is a vocabulary piece.
pub open spec fn longest_end(pieces: Seq<Seq<char>>, chars: Seq<char>, i: int, end: int) -> Option<int>
    decreases end - i,
{
    if end <= i {
        None
    } else if piece_id(pieces, chars.subrange(i, end)) is Some {
        Some(end)
    } else {
        longest_end(pieces, chars, i, end - 1)
    }
}

/// First 16 characters from `i` on (fewer at the end of the text).
pub open spec fn failure_context(chars: Seq<char>, i: int) -> Seq<char> {
    let stop = if i + 16 < chars.len() { i + 16 } else { chars.len() as int };
    chars.subrange(i, stop)
}

/// Greedy encoding of `chars` from position `i`: the longest vocabulary
/// piece starting there, else the byte-fallback piece of an ASCII character,
/// else failure with the next characters as context.
pub open spec fn greedy_from(pieces: Seq<Seq<char>>, chars: Seq<char>, i: int) -> Result<Seq<u32>, Seq<char>>
    decreases chars.len() - i,
{
    if i >= chars.len() || i < 0 {
        Ok(Seq::empty())
    } else {
        match longest_end(pieces, chars, i, chars.len() as int) {
            Some(end) => if i < end <= chars.len() {
                match greedy_from(pieces, chars, end) {
                    Ok(rest) => Ok(seq![piece_id(pieces, chars.subrange(i, end))->Some_0 as u32] + rest),
                    Err(c) => Err(c),
                }
            } else {
                Err(failure_context(chars, i))
            },
            None => {
                let c = chars[i];
                if (c as u32) < 0x80 && piece_id(pieces, byte_piece_text(c as u8)) is Some {
                    match greedy_from(pieces, chars, i + 1) {
                        Ok(rest) => Ok(seq![piece_id(pieces, byte_piece_text(c as u8))->Some_0 as u32] + rest),
                        Err(c) => Err(c),
                    }
                } else {
                    Err(failure_context(chars, i))
                }
            },
        }
    }
}

/// `Ok(prefix + ids)` for a successful rest, the same failure otherwise.
pub open spec fn prepend(prefix: Seq<u32>, rest: Result<Seq<u32>, Seq<char>>) -> Result<Seq<u32>, Seq<char>> {
    match rest {
        Ok(s) => Ok(prefix + s),
        Err(c) => Err(c),
    }
}

/// What an encoder answers for a spec-level outcome.
pub open spec fn encode_answer(outcome: Result<Seq<u32>, Seq<char>>, res: Result<Vec<u32>, PhalanxError>) -> bool {
    match outcome {
        Ok(ids) => res matches Ok(v) && v@ == ids,
        Err(c) => is_tokenizer_fault(res, TokenizerFault::EncodeFailure { context: c }),
    }
}

pub(crate) proof fn lemma_longest_end_range(pieces: Seq<Seq<char>>, chars: Seq<char>, i: int, end: int)
    ensures
        longest_end(pieces, chars, i, end) matches Some(e) ==> i < e <= end && piece_id(
            pieces,
            chars.subrange(i, e),
        ) is Some,
    decreases end - i,
{
    if end > i && !(piece_id(pieces, chars.subrange(i, end)) is Some) {
        lemma_longest_end_range(pieces, chars, i, end - 1);
    }
}

/// No span from `i` ending after the longest match (after `i` when there is
/// none), and no later than `end`, is a vocabulary piece.
proof fn lemma_longest_end_maximal(pieces: Seq<Seq<char>>, chars: Seq<char>, i: int, end: int)
    ensures
        forall|e2: int|
            (match longest_end(pieces, chars, i, end) {
                Some(e) => e,
                None => i,
            }) < e2 <= end ==> #[trigger] piece_id(pieces, chars.subrange(i, e2)) is None,
    decreases end - i,
{
    if end > i && !(piece_id(pieces, chars.subrange(i, end)) is Some) {
        lemma_longest_end_maximal(pieces, chars, i, end - 1);
    }
}

/// Greedy encoding is maximal munch. Wherever it succeeds from position `i`,
/// its first id is either a vocabulary piece spelling `chars[i..e]` such that
/// no piece spells any longer span `chars[i..e']` (`e < e' <= len`), with the
/// remaining ids encoding from `e`; or, when no piece spells any span from
/// `i` at all, the byte-fallback piece `<0xHH>` of the ASCII character at
/// `i`, with the remaining ids encoding from `i + 1`.
pub proof fn lemma_greedy_longest_match(pieces: Seq<Seq<char>>, chars: Seq<char>, i: int, ids: Seq<u32>)
    requires
        ids_fit_len(pieces.len()),
        0 <= i < chars.len(),
        greedy_from(pieces, chars, i) == Ok::<Seq<u32>, Seq<char>>(ids),
    ensures
        ids.len() > 0,
        ids[0] < pieces.len(),
        ({
            let p = pieces[ids[0] as int];
            let e = i + p.len();
            ||| {
                &&& p.len() > 0
                &&& e <= chars.len()
                &&& p == chars.subrange(i, e)
                &&& forall|e2: int, k: int|
                    #![trigger pieces[k], chars.subrange(i, e2)]
                    e < e2 <= chars.len() && 0 <= k < pieces.len() ==> pieces[k] != chars.subrange(i, e2)
                &&& greedy_from(pieces, chars, e) == Ok::<Seq<u32>, Seq<char>>(ids.drop_first())
            }
            ||| {
                &&& (chars[i] as u32) < 0x80
                &&& p == byte_piece_text(chars[i] as u8)
                &&& forall|e2: int, k: int|
                    #![trigger pieces[k], chars.subrange(i, e2)]
                    i < e2 <= chars.len() && 0 <= k < pieces.len() ==> pieces[k] != chars.subrange(i, e2)
                &&& greedy_from(pieces, chars, i + 1) == Ok::<Seq<u32>, Seq<char>>(ids.drop_first())
            }
        }),
{
    let n = chars.len() as int;
    lemma_longest_end_range(pieces, chars, i, n);
    lemma_longest_end_maximal(pieces, chars, i, n);
    let start = match longest_end(pieces, chars, i, n) {
        Some(e) => e,
        None => i,
    };
    assert forall|e2: int, k: int|
        #![trigger pieces[k], chars.subrange(i, e2)]
        start < e2 <= n && 0 <= k < pieces.len() implies pieces[k] != chars.subrange(i, e2) by {
        assert(piece_id(pieces, chars.subrange(i, e2)) is None);
        crate::search::lemma_last_index_spec(pieces, super::vocab::is_piece(chars.subrange(i, e2)));
        assert(!super::vocab::is_piece(chars.subrange(i, e2))(pieces[k]));
    }
    match longest_end(pieces, chars, i, n) {
        Some(end) => {
            let span = chars.subrange(i, end);
            super::vocab::lemma_piece_id(pieces, span);
            let rest = greedy_from(pieces, chars, end)->Ok_0;
            let id0 = piece_id(pieces, span)->Some_0 as u32;
            assert(ids == seq![id0] + rest);
            assert(ids[0] == id0);
            assert(ids.drop_first() =~= rest);
            assert(pieces[ids[0] as int] == span);
        },
        None => {
            let bp = byte_piece_text(chars[i] as u8);
            super::vocab::lemma_piece_id(pieces, bp);
            let rest = greedy_from(pieces, chars, i + 1)->Ok_0;
            let id0 = piece_id(pieces, bp)->Some_0 as u32;
            assert(ids == seq![id0] + rest);
            assert(ids[0] == id0);
            assert(ids.drop_first() =~= rest);
            assert(pieces[ids[0] as int] == bp);
        },
    }
}

/// Greedy encoding fails only where nothing can be emitted: at some position
/// `j` from `i` on, no vocabulary piece spells any span `chars[j..e]`, and the
/// character at `j` is not ASCII or its byte-fallback piece is missing; the
/// failure reports the characters from `j` on.
pub proof fn lemma_greedy_failure_is_stuck(pieces: Seq<Seq<char>>, chars: Seq<char>, i: int, context: Seq<char>)
    requires
        0 <= i,
        greedy_from(pieces, chars, i) == Err::<Seq<u32>, Seq<char>>(context),
    ensures
        exists|j: int|
            {
                &&& i <= j < chars.len()
                &&& forall|e: int, k: int|
                    #![trigger pieces[k], chars.subrange(j, e)]
                    j < e <= chars.len() && 0 <= k < pieces.len() ==> pieces[k] != chars.subrange(j, e)
                &&& ((chars[j] as u32) >= 0x80 || forall|k: int|
                    0 <= k < pieces.len() ==> #[trigger] pieces[k] != byte_piece_text(chars[j] as u8))
                &&& context == #[trigger] failure_context(chars, j)
            },
    decreases chars.len() - i,
{
    let n = chars.len() as int;
    lemma_longest_end_range(pieces, chars, i, n);
    match longest_end(pieces, chars, i, n) {
        Some(end) => {
            lemma_greedy_failure_is_stuck(pieces, chars, end, context);
        },
        None => {
            let c = chars[i];
            if (c as u32) < 0x80 && piece_id(pieces, byte_piece_text(c as u8)) is Some {
                lemma_greedy_failure_is_stuck(pieces, chars, i + 1, context);
            } else {
                lemma_longest_end_maximal(pieces, chars, i, n);
                assert forall|e: int, k: int|
                    #![trigger pieces[k], chars.subrange(i, e)]
                    i < e <= n && 0 <= k < pieces.len() implies pieces[k] != chars.subrange(i, e) by {
                    assert(piece_id(pieces, chars.subrange(i, e)) is None);
                    crate::search::lemma_last_index_spec(pieces, super::vocab::is_piece(chars.subrange(i, e)));
                    assert(!super::vocab::is_piece(chars.subrange(i, e))(pieces[k]));
                }
                crate::search::lemma_last_index_spec(pieces, super::vocab::is_piece(byte_piece_text(c as u8)));
                if (c as u32) < 0x80 {
                    assert forall|k: int| 0 <= k < pieces.len() implies #[trigger] pieces[k] != byte_piece_text(
                        chars[i] as u8,
                    ) by {
                        assert(!super::vocab::is_piece(byte_piece_text(c as u8))(pieces[k]));
                    }
                }
                assert(context == failure_context(chars, i));
            }
        },
    }
}

/// Map surface text into the `SentencePiece` piece alphabet.
pub fn prepare_sentencepiece_text(text: &str) -> (res: Vec<char>)
    ensures
        res@ == sentencepiece_text(text@),
{
    let chars = chars_of(text);
    if chars.len() == 0 {
        return chars;
    }
    let mut replaced: Vec<char> = Vec::new();
    let mut i: usize = 0;
    while i < chars.len()
        invariant
            i <= chars@.len(),
            chars@ == text@,
            replaced@ == chars@.take(i as int).map_values(|c: char| if c == ' ' { SENTENCEPIECE_SPACE } else { c }),
        decreases chars@.len() - i,
    {
        let c = chars[i];
        let out = if c == ' ' {
            SENTENCEPIECE_SPACE
        } else {
            c
        };
        proof {
            assert(chars@.take(i + 1).map_values(|c: char| if c == ' ' { SENTENCEPIECE_SPACE } else { c })
                =~= chars@.take(i as int).map_values(|c: char| if c == ' ' { SENTENCEPIECE_SPACE } else { c }).push(out));
        }
        replaced.push(out);
        i = i + 1;
    }
    assert(chars@.take(i as int) =~= chars@);
    if replaced[0] == SENTENCEPIECE_SPACE {
        replaced
    } else {
        let mut out: Vec<char> = Vec::new();
        out.push(SENTENCEPIECE_SPACE);
        let mut j: usize = 0;
        while j < replaced.len()
            invariant
                j <= replaced@.len(),
                out@ == seq![SENTENCEPIECE_SPACE] + replaced@.take(j as int),
            decreases replaced@.len() - j,
        {
            proof {
                assert(replaced@.take(j + 1) =~= replaced@.take(j as int).push(replaced@[j as int]));
            }
            out.push(replaced[j]);
            j = j + 1;
        }
        assert(replaced@.take(j as int) =~= replaced@);
        out
    }
}

fn hex_upper_char(d: u8) -> (res: char)
    requires
        d < 16,
    ensures
        res == hex_upper(d),
{
    if d < 10 {
        ((d + 48) as u8) as char
    } else {
        ((d + 55) as u8) as char
    }
}

/// `<0xHH>` for a byte.
fn byte_piece_string(b: u8) -> (res: String)
    ensures
        res@ == byte_piece_text(b),
{
    let chars: Vec<char> = vec!['<', '0', 'x', hex_upper_char(b / 16), hex_upper_char(b % 16), '>'];
    assert(chars@ =~= byte_piece_text(b));
    string_from_chars(chars.as_slice())
}

/// Greedy longest-match encode used when merges are absent (Llama-style).
///
/// Spaces become the `SentencePiece` marker `▁` and a leading `▁` is added
/// (see [`sentencepiece_text`]); the ids are exactly [`greedy_from`] of that
/// text, and a span no piece covers fails with
/// [`TokenizerError::EncodeFailure`].
pub fn encode_greedy(vocab: &Vocabulary, text: &str) -> (res: Result<Vec<u32>, PhalanxError>)
    ensures
        encode_answer(greedy_from(vocab.pieces(), sentencepiece_text(text@), 0), res),
{
    let chars = prepare_sentencepiece_text(text);
    let ghost c = chars@;
    let ghost pieces = vocab.pieces();
    let mut ids: Vec<u32> = Vec::new();
    let mut i: usize = 0;
    while i < chars.len()
        invariant
            c == chars@,
            c == sentencepiece_text(text@),
            pieces == vocab.pieces(),
            i <= c.len(),
            greedy_from(pieces, c, 0) == prepend(ids@, greedy_from(pieces, c, i as int)),
        decreases c.len() - i,
    {
        // Longest-first: try the remainder, then shrink until a piece hits.
        let mut end: usize = chars.len();
        let mut found: Option<u32> = None;
        while end > i && found.is_none()
            invariant
                c == chars@,
                pieces == vocab.pieces(),
                i < c.len(),
                i <= end <= c.len(),
                longest_end(pieces, c, i as int, c.len() as int) == longest_end(pieces, c, i as int, end as int),
                found matches Some(id) ==> (end > i && piece_id(pieces, c.subrange(i as int, end as int)) is Some
                    && id == piece_id(pieces, c.subrange(i as int, end as int))->Some_0 as u32),
            decreases end, if found is None { 1int } else { 0int },
        {
            let candidate = string_from_chars(vstd::slice::slice_subrange(chars.as_slice(), i, end));
            match vocab.id(candidate.as_str()) {
                Some(id) => {
                    found = Some(id);
                },
                None => {
                    end = end - 1;
                },
            }
        }
        proof {
            lemma_longest_end_range(pieces, c, i as int, c.len() as int);
        }
        match found {
            Some(id) => {
                proof {
                    assert(greedy_from(pieces, c, i as int) == prepend(seq![id], greedy_from(pieces, c, end as int)));
                    assert(ids@.push(id) =~= ids@ + seq![id]);
                    assert forall|s: Seq<u32>| #![auto] (ids@ + seq![id]) + s =~= ids@ + (seq![id] + s) by {}
                }
                ids.push(id);
                i = end;
            },
            None => {
                // Single-character byte fallback via `<0xXX>` pieces when present.
                let ch = chars[i];
                if (ch as u32) < 0x80 {
                    let piece = byte_piece_string(ch as u8);
                    match vocab.id(piece.as_str()) {
                        Some(id) => {
                            proof {
                                assert(ids@.push(id) =~= ids@ + seq![id]);
                                assert forall|s: Seq<u32>| #![auto] (ids@ + seq![id]) + s =~= ids@ + (seq![id] + s) by {}
                            }
                            ids.push(id);
                            i = i + 1;
                            continue;
                        },
                        None => {},
                    }
                }
                let stop = if chars.len() - i > 16 {
                    i + 16
                } else {
                    chars.len()
                };
                let context = string_from_chars(vstd::slice::slice_subrange(chars.as_slice(), i, stop));
                proof {
                    assert(longest_end(pieces, c, i as int, i as int) is None);
                    assert(context@ == failure_context(c, i as int));
                }
                return Err(PhalanxError::Tokenizer(TokenizerError::EncodeFailure { context }));
            },
        }
    }
    proof {
        assert(ids@ + Seq::<u32>::empty() =~= ids@);
    }
    Ok(ids)
}

// ---------------------------------------------------------------------------
// BPE merges
// ---------------------------------------------------------------------------

/// Merge rules as `(left, right)` character pairs, in rank order.
pub open spec fn rule_pairs(merges: Seq<MergeRule>) -> Seq<(Seq<char>, Seq<char>)> {
    merges.map_values(|m: MergeRule| (m.left@, m.right@))
}

/// Rank of the pair `(a, b)`: the index of the last rule for it (a later
/// duplicate rule replaces an earlier one's rank).
pub open spec fn pair_rank(rules: Seq<(Seq<char>, Seq<char>)>, a: Seq<char>, b: Seq<char>) -> Option<int> {
    last_index(rules, |r: (Seq<char>, Seq<char>)| r == (a, b))
}

/// Best adjacent pair `(rank, index)` from position `i` on, given the best
/// found before `i`: the lowest rank, the leftmost pair among equal ranks.
pub open spec fn best_pair_from(
    rules: Seq<(Seq<char>, Seq<char>)>,
    syms: Seq<Seq<char>>,
    i: int,
    best: Option<(int, int)>,
) -> Option<(int, int)>
    decreases syms.len() - i,
{
    if i < 0 || i + 1 >= syms.len() {
        best
    } else {
        let next = match pair_rank(rules, syms[i], syms[i + 1]) {
            Some(r) => match best {
                Some((br, _)) => if r < br {
                    Some((r, i))
                } else {
                    best
                },
                None => Some((r, i)),
            },
            None => best,
        };
        best_pair_from(rules, syms, i + 1, next)
    }
}

/// Symbols with the pair at `idx` joined into one.
pub open spec fn merge_at(syms: Seq<Seq<char>>, idx: int) -> Seq<Seq<char>> {
    syms.subrange(0, idx).push(syms[idx] + syms[idx + 1]) + syms.subrange(idx + 2, syms.len() as int)
}

/// Apply the best-ranked merge until no adjacent pair has a rule.
pub open spec fn bpe_symbols(rules: Seq<(Seq<char>, Seq<char>)>, syms: Seq<Seq<char>>) -> Seq<Seq<char>>
    decreases syms.len(),
{
    match best_pair_from(rules, syms, 0, None) {
        Some((_, idx)) => if 0 <= idx && idx + 1 < syms.len() {
            bpe_symbols(rules, merge_at(syms, idx))
        } else {
            syms
        },
        None => syms,
    }
}

/// Ids of the symbols; the first symbol without a piece fails.
pub open spec fn symbol_ids(pieces: Seq<Seq<char>>, syms: Seq<Seq<char>>) -> Result<Seq<u32>, Seq<char>>
    decreases syms.len(),
{
    if syms.len() == 0 {
        Ok(Seq::empty())
    } else {
        match piece_id(pieces, syms[0]) {
            Some(k) => prepend(seq![k as u32], symbol_ids(pieces, syms.drop_first())),
            None => Err(syms[0]),
        }
    }
}

/// One single-character symbol per character.
pub open spec fn char_symbols(text: Seq<char>) -> Seq<Seq<char>> {
    text.map_values(|c: char| seq![c])
}

/// GPT-2 style BPE encoding of `text`.
pub open spec fn bpe_encode(pieces: Seq<Seq<char>>, rules: Seq<(Seq<char>, Seq<char>)>, text: Seq<char>) -> Result<Seq<u32>, Seq<char>> {
    if text.len() == 0 {
        Ok(Seq::empty())
    } else {
        symbol_ids(pieces, bpe_symbols(rules, char_symbols(text)))
    }
}

/// A best pair found from a position is a real adjacent pair.
proof fn lemma_best_pair_range(rules: Seq<(Seq<char>, Seq<char>)>, syms: Seq<Seq<char>>, i: int, best: Option<(int, int)>)
    requires
        best matches Some((_, b)) ==> 0 <= b && b + 1 < syms.len(),
    ensures
        best_pair_from(rules, syms, i, best) matches Some((_, b)) ==> 0 <= b && b + 1 < syms.len(),
    decreases syms.len() - i,
{
    if !(i < 0 || i + 1 >= syms.len()) {
        let next = match pair_rank(rules, syms[i], syms[i + 1]) {
            Some(r) => match best {
                Some((br, _)) => if r < br {
                    Some((r, i))
                } else {
                    best
                },
                None => Some((r, i)),
            },
            None => best,
        };
        lemma_best_pair_range(rules, syms, i + 1, next);
    }
}

/// Symbols of a string vector, as character sequences.
pub open spec fn symbols_view(v: Seq<String>) -> Seq<Seq<char>> {
    v.map_values(|s: String| s@)
}

/// Rank of `(a, b)` among the merge rules.
fn rank_of(merges: &[MergeRule], a: &str, b: &str) -> (res: Option<usize>)
    ensures
        match pair_rank(rule_pairs(merges@), a@, b@) {
            Some(r) => res matches Some(x) && x as int == r,
            None => res is None,
        },
{
    let ghost rules = rule_pairs(merges@);
    let ghost p = |r: (Seq<char>, Seq<char>)| r == (a@, b@);
    let mut j: usize = merges.len();
    while j > 0
        invariant
            j <= merges@.len(),
            rules == rule_pairs(merges@),
            p == (|r: (Seq<char>, Seq<char>)| r == (a@, b@)),
            forall|k: int| j <= k < rules.len() ==> !p(#[trigger] rules[k]),
        decreases j,
    {
        j = j - 1;
        let rule = &merges[j];
        assert(rules[j as int] == (rule.left@, rule.right@));
        if str_eq(rule.left.as_str(), a) && str_eq(rule.right.as_str(), b) {
            proof {
                lemma_last_index_is(rules, p, j as int);
            }
            return Some(j);
        }
    }
    proof {
        lemma_last_index_none(rules, p);
    }
    None
}

/// GPT-2 style BPE using ordered merge rules from `tokenizer.ggml.merges`.
///
/// Starts from one symbol per character, repeatedly joins the adjacent pair
/// with the lowest rank (leftmost on ties), and maps the final symbols to
/// ids: exactly [`bpe_encode`]; a symbol without a piece fails with
/// [`TokenizerError::EncodeFailure`].
pub fn encode_bpe(vocab: &Vocabulary, merges: &[MergeRule], text: &str) -> (res: Result<Vec<u32>, PhalanxError>)
    ensures
        encode_answer(bpe_encode(vocab.pieces(), rule_pairs(merges@), text@), res),
{
    let chars = chars_of(text);
    if chars.len() == 0 {
        return Ok(Vec::new());
    }
    let ghost rules = rule_pairs(merges@);
    let mut symbols: Vec<String> = Vec::new();
    let mut k: usize = 0;
    while k < chars.len()
        invariant
            k <= chars@.len(),
            symbols_view(symbols@) == char_symbols(chars@.take(k as int)),
        decreases chars@.len() - k,
    {
        let one: Vec<char> = vec![chars[k]];
        let s = string_from_chars(one.as_slice());
        proof {
            assert(one@ =~= seq![chars@[k as int]]);
            assert(char_symbols(chars@.take(k + 1)) =~= char_symbols(chars@.take(k as int)).push(seq![chars@[k as int]]));
            assert(symbols_view(symbols@.push(s)) =~= symbols_view(symbols@).push(s@));
        }
        symbols.push(s);
        k = k + 1;
    }
    assert(chars@.take(k as int) =~= chars@);
    assert(chars@ == text@);
    let ghost start = symbols_view(symbols@);
    let mut done = false;
    while !done
        invariant
            rules == rule_pairs(merges@),
            bpe_symbols(rules, start) == bpe_symbols(rules, symbols_view(symbols@)),
            done ==> best_pair_from(rules, symbols_view(symbols@), 0, None) is None,
        decreases symbols@.len() + if done { 0int } else { 1int },
    {
        let ghost view = symbols_view(symbols@);
        let n = symbols.len();
        let mut best: Option<(usize, usize)> = None;
        let mut i: usize = 0;
        while n > 0 && i < n - 1
            invariant
                n == symbols@.len(),
                view == symbols_view(symbols@),
                rules == rule_pairs(merges@),
                i == 0 || i < n,
                best matches Some((_, b)) ==> b + 1 < n,
                best_pair_from(rules, view, 0, None) == best_pair_from(
                    rules,
                    view,
                    i as int,
                    match best {
                        Some((r, b)) => Some((r as int, b as int)),
                        None => None,
                    },
                ),
            decreases n - i,
        {
            let rank = rank_of(merges, symbols[i].as_str(), symbols[i + 1].as_str());
            assert(view[i as int] == symbols@[i as int]@);
            assert(view[i + 1] == symbols@[i + 1]@);
            match rank {
                Some(r) => {
                    match best {
                        Some((br, _)) => {
                            if r < br {
                                best = Some((r, i));
                            }
                        },
                        None => {
                            best = Some((r, i));
                        },
                    }
                },
                None => {},
            }
            i = i + 1;
        }
        match best {
            None => {
                done = true;
            },
            Some((_, idx)) => {
                let mut joined = symbols[idx].clone();
                joined.append(symbols[idx + 1].as_str());
                let ghost before = symbols@;
                symbols.set(idx, joined);
                let _ = symbols.remove(idx + 1);
                proof {
                    assert(symbols_view(symbols@) =~= merge_at(view, idx as int));
                }
            },
        }
    }
    let ghost fin = symbols_view(symbols@);
    assert(bpe_symbols(rules, fin) == fin);
    assert(bpe_encode(vocab.pieces(), rule_pairs(merges@), text@) == symbol_ids(vocab.pieces(), fin));
    assert(fin.subrange(0, fin.len() as int) =~= fin);
    assert forall|s: Seq<u32>| #![auto] Seq::<u32>::empty() + s =~= s by {}
    let mut ids: Vec<u32> = Vec::new();
    let mut j: usize = 0;
    while j < symbols.len()
        invariant
            j <= symbols@.len(),
            fin == symbols_view(symbols@),
            bpe_encode(vocab.pieces(), rule_pairs(merges@), text@) == symbol_ids(vocab.pieces(), fin),
            symbol_ids(vocab.pieces(), fin) == prepend(ids@, symbol_ids(vocab.pieces(), fin.subrange(j as int, fin.len() as int))),
        decreases symbols@.len() - j,
    {
        proof {
            assert(fin.subrange(j as int, fin.len() as int).drop_first() =~= fin.subrange(j + 1, fin.len() as int));
        }
        match vocab.id(symbols[j].as_str()) {
            Some(id) => {
                proof {
                    assert forall|s: Seq<u32>| #![auto] (ids@ + seq![id]) + s =~= ids@ + (seq![id] + s) by {}
                    assert(ids@.push(id) =~= ids@ + seq![id]);
                }
                ids.push(id);
            },
            None => {
                assert(fin.subrange(j as int, fin.len() as int)[0] == symbols@[j as int]@);
                return Err(
                    PhalanxError::Tokenizer(
                        TokenizerError::EncodeFailure { context: symbols[j].clone() },
                    ),
                );
            },
        }
        j = j + 1;
    }
    proof {
        assert(fin.subrange(j as int, fin.len() as int) =~= Seq::<Seq<char>>::empty());
        assert(ids@ + Seq::<u32>::empty() =~= ids@);
    }
    Ok(ids)
}

// ---------------------------------------------------------------------------
// Laws
// ---------------------------------------------------------------------------

/// The vocabulary pieces of a list of ids.
pub open spec fn pieces_of(pieces: Seq<Seq<char>>, ids: Seq<u32>) -> Seq<Seq<char>> {
    ids.map_values(|i: u32| pieces[i as int])
}

proof fn lemma_merge_at_flatten(syms: Seq<Seq<char>>, idx: int)
    requires
        0 <= idx && idx + 1 < syms.len(),
    ensures
        merge_at(syms, idx).flatten() == syms.flatten(),
{
    let a = syms.subrange(0, idx);
    let b = syms.subrange(idx + 2, syms.len() as int);
    let x = syms[idx];
    let y = syms[idx + 1];
    assert(syms =~= a + (seq![x, y] + b));
    assert(merge_at(syms, idx) =~= a + (seq![x + y] + b));
    vstd::seq_lib::lemma_flatten_concat(a, seq![x, y] + b);
    vstd::seq_lib::lemma_flatten_concat(seq![x, y], b);
    vstd::seq_lib::lemma_flatten_concat(a, seq![x + y] + b);
    vstd::seq_lib::lemma_flatten_concat(seq![x + y], b);
    assert(seq![x, y].drop_first() =~= seq![y]);
    assert(seq![y].drop_first() =~= Seq::<Seq<char>>::empty());
    assert(seq![x + y].drop_first() =~= Seq::<Seq<char>>::empty());
    seq![y].lemma_flatten_one_element();
    seq![x + y].lemma_flatten_one_element();
    assert(seq![x, y].first() == x);
    assert(seq![x, y].flatten() == x + seq![y].flatten());
    assert(seq![x, y].flatten() =~= x + y);
}

/// Merging never changes the text that the symbols spell.
pub proof fn lemma_bpe_symbols_flatten(rules: Seq<(Seq<char>, Seq<char>)>, syms: Seq<Seq<char>>)
    ensures
        bpe_symbols(rules, syms).flatten() == syms.flatten(),
    decreases syms.len(),
{
    match best_pair_from(rules, syms, 0, None) {
        Some((_, idx)) => {
            if 0 <= idx && idx + 1 < syms.len() {
                lemma_merge_at_flatten(syms, idx);
                lemma_bpe_symbols_flatten(rules, merge_at(syms, idx));
            }
        },
        None => {},
    }
}

proof fn lemma_char_symbols_flatten(text: Seq<char>)
    ensures
        char_symbols(text).flatten() == text,
    decreases text.len(),
{
    if text.len() > 0 {
        assert(char_symbols(text).drop_first() =~= char_symbols(text.drop_first()));
        lemma_char_symbols_flatten(text.drop_first());
        assert(char_symbols(text).first() == seq![text[0]]);
        assert(seq![text[0]] + text.drop_first() =~= text);
    }
}

proof fn lemma_symbol_ids_pieces(pieces: Seq<Seq<char>>, syms: Seq<Seq<char>>, ids: Seq<u32>)
    requires
        ids_fit_len(pieces.len()),
        symbol_ids(pieces, syms) == Ok::<Seq<u32>, Seq<char>>(ids),
    ensures
        ids.len() == syms.len(),
        forall|k: int| 0 <= k < ids.len() ==> #[trigger] ids[k] < pieces.len() && pieces[ids[k] as int] == syms[k],
    decreases syms.len(),
{
    if syms.len() > 0 {
        let k0 = piece_id(pieces, syms[0])->Some_0;
        crate::search::lemma_last_index_spec(pieces, |p: Seq<char>| p == syms[0]);
        let rest = symbol_ids(pieces, syms.drop_first())->Ok_0;
        lemma_symbol_ids_pieces(pieces, syms.drop_first(), rest);
        assert(ids =~= seq![k0 as u32] + rest);
        assert forall|k: int| 0 <= k < ids.len() implies #[trigger] ids[k] < pieces.len() && pieces[ids[k] as int] == syms[k] by {
            if k > 0 {
                assert(ids[k] == rest[k - 1]);
                assert(syms.drop_first()[k - 1] == syms[k]);
            }
        }
    }
}

/// Vocabulary length whose indices all fit in `u32`.
pub open spec fn ids_fit_len(n: nat) -> bool {
    n <= 0x1_0000_0000
}

/// BPE encoding spells the text: when it succeeds, every id is a vocabulary
/// index and the pieces of the ids, concatenated, are exactly the text.
pub proof fn lemma_bpe_spells_text(pieces: Seq<Seq<char>>, rules: Seq<(Seq<char>, Seq<char>)>, text: Seq<char>, ids: Seq<u32>)
    requires
        ids_fit_len(pieces.len()),
        bpe_encode(pieces, rules, text) == Ok::<Seq<u32>, Seq<char>>(ids),
    ensures
        forall|k: int| 0 <= k < ids.len() ==> #[trigger] ids[k] < pieces.len(),
        pieces_of(pieces, ids).flatten() == text,
{
    if text.len() == 0 {
        assert(ids =~= Seq::<u32>::empty());
        assert(pieces_of(pieces, ids) =~= Seq::<Seq<char>>::empty());
        assert(text =~= Seq::<char>::empty());
    } else {
        let syms = bpe_symbols(rules, char_symbols(text));
        lemma_symbol_ids_pieces(pieces, syms, ids);
        assert(pieces_of(pieces, ids) =~= syms);
        lemma_bpe_symbols_flatten(rules, char_symbols(text));
        lemma_char_symbols_flatten(text);
    }
}

/// Greedy encoding only produces vocabulary indices.
pub proof fn lemma_greedy_ids_in_vocab(pieces: Seq<Seq<char>>, chars: Seq<char>, i: int, ids: Seq<u32>)
    requires
        ids_fit_len(pieces.len()),
        greedy_from(pieces, chars, i) == Ok::<Seq<u32>, Seq<char>>(ids),
    ensures
        forall|k: int| 0 <= k < ids.len() ==> #[trigger] ids[k] < pieces.len(),
    decreases chars.len() - i,
{
    if !(i >= chars.len() || i < 0) {
        match longest_end(pieces, chars, i, chars.len() as int) {
            Some(end) => {
                if i < end <= chars.len() {
                    let span = chars.subrange(i, end);
                    super::vocab::lemma_piece_id(pieces, span);
                    lemma_longest_end_range(pieces, chars, i, chars.len() as int);
                    let rest = greedy_from(pieces, chars, end)->Ok_0;
                    lemma_greedy_ids_in_vocab(pieces, chars, end, rest);
                    let id0 = piece_id(pieces, span)->Some_0 as u32;
                    assert(ids == seq![id0] + rest);
                    assert(ids[0] == id0);
                    assert forall|k: int| 0 <= k < ids.len() implies #[trigger] ids[k] < pieces.len() by {
                        if k > 0 {
                            assert(ids[k] == rest[k - 1]);
                        }
                    }
                }
            },
            None => {
                let c = chars[i];
                let bp = byte_piece_text(c as u8);
                super::vocab::lemma_piece_id(pieces, bp);
                let rest = greedy_from(pieces, chars, i + 1)->Ok_0;
                lemma_greedy_ids_in_vocab(pieces, chars, i + 1, rest);
                let id0 = piece_id(pieces, bp)->Some_0 as u32;
                assert(ids == seq![id0] + rest);
                assert(ids[0] == id0);
                assert forall|k: int| 0 <= k < ids.len() implies #[trigger] ids[k] < pieces.len() by {
                    if k > 0 {
                        assert(ids[k] == rest[k - 1]);
                    }
                }
            },
        }
    }
}

} // verus!
