//! What decoding gives back of encoded text.

use vstd::prelude::*;
use vstd::utf8::{decode_utf8, encode_utf8, valid_utf8};

use super::decode::{byte_piece_value, hex_value, piece_bytes, spaced, DecodeOptions, SENTENCEPIECE_SPACE};
use super::encode::{
    byte_piece_text, greedy_from, hex_upper, ids_fit_len, lemma_bpe_spells_text, pieces_of,
    sentencepiece_text,
};
use super::engine::{decoded_bytes, encode_ids, skipped, TokenizerTables};
use super::error::TokenizerFault;
use super::vocab::{lemma_piece_id, piece_id};

verus! {

/// Text that decoding a `SentencePiece`-style encoding restores: the text
/// itself, behind one added space unless it already starts with a space.
pub open spec fn restored_text(text: Seq<char>) -> Seq<char> {
    if text.len() == 0 {
        Seq::empty()
    } else if text[0] == ' ' {
        text
    } else {
        seq![' '] + text
    }
}

/// Characters that no round trip can carry: `<` opens a byte piece, and `▁`
/// always decodes as a space.
pub open spec fn round_trip_safe(text: Seq<char>) -> bool {
    forall|k: int| 0 <= k < text.len() ==> #[trigger] text[k] != '<' && text[k] != SENTENCEPIECE_SPACE
}

proof fn lemma_encode_utf8_concat(a: Seq<char>, b: Seq<char>)
    ensures
        encode_utf8(a + b) == encode_utf8(a) + encode_utf8(b),
    decreases a.len(),
{
    if a.len() == 0 {
        assert(a + b =~= b);
        assert(encode_utf8(a) + encode_utf8(b) =~= encode_utf8(b));
    } else {
        lemma_encode_utf8_concat(a.drop_first(), b);
        assert((a + b).drop_first() =~= a.drop_first() + b);
        assert((a + b)[0] == a[0]);
        let h = vstd::utf8::encode_scalar(a[0] as u32);
        assert(h + (encode_utf8(a.drop_first()) + encode_utf8(b)) =~= (h + encode_utf8(a.drop_first()))
            + encode_utf8(b));
    }
}

proof fn lemma_spaced_concat(a: Seq<char>, b: Seq<char>)
    ensures
        spaced(a + b) == spaced(a) + spaced(b),
{
    assert(spaced(a + b) =~= spaced(a) + spaced(b));
}

proof fn lemma_hex_round_trip(d: u8)
    requires
        d < 16,
    ensures
        hex_value(hex_upper(d)) == Some(d),
{
}

proof fn lemma_byte_piece_text_value(b: u8)
    ensures
        byte_piece_value(byte_piece_text(b)) == Some(b),
{
    lemma_hex_round_trip(b / 16);
    lemma_hex_round_trip(b % 16);
}

/// A piece without `<` decodes to the UTF-8 of its spaced text.
proof fn lemma_text_piece_bytes(piece: Seq<char>)
    requires
        forall|j: int| 0 <= j < piece.len() ==> #[trigger] piece[j] != '<',
    ensures
        piece_bytes(piece) == encode_utf8(spaced(piece)),
{
    if piece.len() > 0 {
        assert(piece[0] != '<');
    }
}

/// An ASCII character's byte piece decodes to that character's UTF-8.
proof fn lemma_ascii_byte_piece(c: char)
    requires
        (c as u32) < 0x80,
    ensures
        piece_bytes(byte_piece_text(c as u8)) == encode_utf8(spaced(seq![c])),
{
    lemma_byte_piece_text_value(c as u8);
    assert(spaced(seq![c]) =~= seq![c]);
    assert(vstd::utf8::is_ascii_chars(seq![c]));
    vstd::utf8::is_ascii_chars_encode_utf8(seq![c]);
    assert(encode_utf8(seq![c]) =~= seq![c as u8]);
}

proof fn lemma_flatten_cons<A>(x: Seq<A>, rest: Seq<Seq<A>>)
    ensures
        (seq![x] + rest).flatten() == x + rest.flatten(),
{
    let s = seq![x] + rest;
    assert(s.first() == x);
    assert(s.drop_first() =~= rest);
}

/// The bytes of the pieces that greedy encoding picks from position `i`
/// are the UTF-8 of the rest of the text, spaced.
proof fn lemma_greedy_decodes(pieces: Seq<Seq<char>>, chars: Seq<char>, i: int, ids: Seq<u32>)
    requires
        ids_fit_len(pieces.len()),
        0 <= i <= chars.len(),
        greedy_from(pieces, chars, i) == Ok::<Seq<u32>, Seq<char>>(ids),
        forall|k: int| 0 <= k < chars.len() ==> #[trigger] chars[k] != '<',
    ensures
        forall|k: int| 0 <= k < ids.len() ==> #[trigger] ids[k] < pieces.len(),
        ids.map_values(|id: u32| piece_bytes(pieces[id as int])).flatten() == encode_utf8(
            spaced(chars.subrange(i, chars.len() as int)),
        ),
    decreases chars.len() - i,
{
    let f = |id: u32| piece_bytes(pieces[id as int]);
    if i == chars.len() {
        assert(ids =~= Seq::<u32>::empty());
        assert(ids.map_values(f) =~= Seq::<Seq<u8>>::empty());
        assert(spaced(chars.subrange(i, chars.len() as int)) =~= Seq::<char>::empty());
    } else {
        let found = super::encode::longest_end(pieces, chars, i, chars.len() as int);
        super::encode::lemma_longest_end_range(pieces, chars, i, chars.len() as int);
        let (piece, end) = match found {
            Some(e) => (chars.subrange(i, e), e),
            None => (byte_piece_text(chars[i] as u8), i + 1),
        };
        let j = piece_id(pieces, piece)->Some_0;
        lemma_piece_id(pieces, piece);
        let rest = greedy_from(pieces, chars, end)->Ok_0;
        lemma_greedy_decodes(pieces, chars, end, rest);
        let id0 = j as u32;
        assert(ids == seq![id0] + rest);
        assert forall|k: int| 0 <= k < ids.len() implies #[trigger] ids[k] < pieces.len() by {
            if k > 0 {
                assert(ids[k] == rest[k - 1]);
            }
        }
        let head = chars.subrange(i, end);
        match found {
            Some(_) => {
                assert forall|q: int| 0 <= q < head.len() implies #[trigger] head[q] != '<' by {
                    assert(head[q] == chars[i + q]);
                }
                lemma_text_piece_bytes(head);
            },
            None => {
                assert(head =~= seq![chars[i]]);
                lemma_ascii_byte_piece(chars[i]);
            },
        }
        assert(piece_bytes(pieces[id0 as int]) == encode_utf8(spaced(head)));
        assert(ids.map_values(f) =~= seq![f(id0)] + rest.map_values(f));
        lemma_flatten_cons(f(id0), rest.map_values(f));
        assert(chars.subrange(i, chars.len() as int) =~= head + chars.subrange(end, chars.len() as int));
        lemma_spaced_concat(head, chars.subrange(end, chars.len() as int));
        lemma_encode_utf8_concat(spaced(head), spaced(chars.subrange(end, chars.len() as int)));
    }
}

/// Pieces whose text has no `<` decode, together, to the UTF-8 of their
/// concatenation, spaced.
proof fn lemma_text_pieces_decode(ps: Seq<Seq<char>>)
    requires
        forall|k: int| 0 <= k < ps.flatten().len() ==> #[trigger] ps.flatten()[k] != '<',
    ensures
        ps.map_values(|p: Seq<char>| piece_bytes(p)).flatten() == encode_utf8(spaced(ps.flatten())),
    decreases ps.len(),
{
    let f = |p: Seq<char>| piece_bytes(p);
    if ps.len() == 0 {
        assert(ps.map_values(f) =~= Seq::<Seq<u8>>::empty());
        assert(spaced(ps.flatten()) =~= Seq::<char>::empty());
    } else {
        let head = ps.first();
        let rest = ps.drop_first();
        assert(ps.flatten() == head + rest.flatten());
        assert forall|k: int| 0 <= k < rest.flatten().len() implies #[trigger] rest.flatten()[k] != '<' by {
            assert(ps.flatten()[head.len() + k] == rest.flatten()[k]);
        }
        lemma_text_pieces_decode(rest);
        assert forall|q: int| 0 <= q < head.len() implies #[trigger] head[q] != '<' by {
            assert(ps.flatten()[q] == head[q]);
        }
        lemma_text_piece_bytes(head);
        assert(ps.map_values(f).first() == f(head));
        assert(ps.map_values(f).drop_first() =~= rest.map_values(f));
        lemma_spaced_concat(head, rest.flatten());
        lemma_encode_utf8_concat(spaced(head), spaced(rest.flatten()));
    }
}

/// Decoding known ids that the options keep concatenates their pieces' bytes.
proof fn lemma_decode_kept(t: TokenizerTables, options: DecodeOptions, ids: Seq<u32>)
    requires
        forall|k: int| 0 <= k < ids.len() ==> #[trigger] ids[k] < t.pieces.len() && !skipped(t, options, ids[k]),
    ensures
        decoded_bytes(t, options, ids) == Ok::<Seq<u8>, TokenizerFault>(
            ids.map_values(|i: u32| piece_bytes(t.pieces[i as int])).flatten(),
        ),
    decreases ids.len(),
{
    let m = ids.map_values(|i: u32| piece_bytes(t.pieces[i as int]));
    if ids.len() > 0 {
        assert forall|k: int| 0 <= k < ids.drop_last().len() implies #[trigger] ids.drop_last()[k] < t.pieces.len()
            && !skipped(t, options, ids.drop_last()[k]) by {
            assert(ids.drop_last()[k] == ids[k]);
        }
        lemma_decode_kept(t, options, ids.drop_last());
        ids.drop_last().map_values(|i: u32| piece_bytes(t.pieces[i as int])).lemma_flatten_and_flatten_alt_are_equivalent();
        assert(m.drop_last() =~= ids.drop_last().map_values(|i: u32| piece_bytes(t.pieces[i as int])));
        assert(ids.last() == ids[ids.len() - 1]);
    } else {
        assert(m =~= Seq::<Seq<u8>>::empty());
    }
    m.lemma_flatten_and_flatten_alt_are_equivalent();
}

proof fn lemma_spaced_prepared(text: Seq<char>)
    requires
        round_trip_safe(text),
    ensures
        spaced(sentencepiece_text(text)) == restored_text(text),
        forall|k: int| 0 <= k < sentencepiece_text(text).len() ==> #[trigger] sentencepiece_text(text)[k] != '<',
{
    if text.len() > 0 {
        let replaced = text.map_values(|c: char| if c == ' ' { SENTENCEPIECE_SPACE } else { c });
        assert(spaced(replaced) =~= text);
        assert(text[0] != SENTENCEPIECE_SPACE);
        if replaced[0] != SENTENCEPIECE_SPACE {
            assert(spaced(seq![SENTENCEPIECE_SPACE] + replaced) =~= seq![' '] + text);
            assert forall|k: int| 0 <= k < sentencepiece_text(text).len() implies #[trigger] sentencepiece_text(text)[k]
                != '<' by {
                if k > 0 {
                    assert(sentencepiece_text(text)[k] == replaced[k - 1]);
                }
            }
        }
    } else {
        assert(spaced(sentencepiece_text(text)) =~= Seq::<char>::empty());
    }
}

/// Greedy (`SentencePiece`-style) round trip: decoding what encoding
/// produced, with no id dropped by the decode options, gives back the text
/// behind one added space (none when it already starts with a space), as
/// valid UTF-8. The id-count premise holds of every tokenizer's tables
/// ([`Tokenizer::encode`](super::engine::Tokenizer::encode) states it).
pub proof fn lemma_greedy_round_trip(t: TokenizerTables, options: DecodeOptions, text: Seq<char>)
    requires
        t.merges.len() == 0,
        ids_fit_len(t.pieces.len()),
        round_trip_safe(text),
        encode_ids(t, text) is Ok,
        forall|k: int| 0 <= k < encode_ids(t, text)->Ok_0.len() ==> !skipped(t, options, #[trigger] encode_ids(t, text)->Ok_0[k]),
    ensures
        decoded_bytes(t, options, encode_ids(t, text)->Ok_0) == Ok::<Seq<u8>, TokenizerFault>(encode_utf8(restored_text(text))),
        valid_utf8(encode_utf8(restored_text(text))),
        decode_utf8(encode_utf8(restored_text(text))) == restored_text(text),
{
    let chars = sentencepiece_text(text);
    let ids = encode_ids(t, text)->Ok_0;
    lemma_spaced_prepared(text);
    lemma_greedy_decodes(t.pieces, chars, 0, ids);
    assert(chars.subrange(0, chars.len() as int) =~= chars);
    lemma_decode_kept(t, options, ids);
    vstd::utf8::encode_utf8_valid_utf8(restored_text(text));
    vstd::utf8::encode_utf8_decode_utf8(restored_text(text));
}

/// BPE round trip: decoding what encoding produced, with no id dropped by
/// the decode options, gives back exactly the text, as valid UTF-8. The
/// id-count premise holds of every tokenizer's tables.
pub proof fn lemma_bpe_round_trip(t: TokenizerTables, options: DecodeOptions, text: Seq<char>)
    requires
        t.merges.len() > 0,
        ids_fit_len(t.pieces.len()),
        round_trip_safe(text),
        encode_ids(t, text) is Ok,
        forall|k: int| 0 <= k < encode_ids(t, text)->Ok_0.len() ==> !skipped(t, options, #[trigger] encode_ids(t, text)->Ok_0[k]),
    ensures
        decoded_bytes(t, options, encode_ids(t, text)->Ok_0) == Ok::<Seq<u8>, TokenizerFault>(encode_utf8(text)),
        valid_utf8(encode_utf8(text)),
        decode_utf8(encode_utf8(text)) == text,
{
    let ids = encode_ids(t, text)->Ok_0;
    lemma_bpe_spells_text(t.pieces, t.merges, text, ids);
    let ps = pieces_of(t.pieces, ids);
    lemma_text_pieces_decode(ps);
    assert(ps.map_values(|p: Seq<char>| piece_bytes(p)) =~= ids.map_values(|i: u32| piece_bytes(t.pieces[i as int])));
    assert(spaced(text) =~= text);
    lemma_decode_kept(t, options, ids);
    vstd::utf8::encode_utf8_valid_utf8(text);
    vstd::utf8::encode_utf8_decode_utf8(text);
}

} // verus!
