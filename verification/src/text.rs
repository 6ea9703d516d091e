//! Byte / character helpers shared by the GGUF parser and the tokenizer.

use std::string::FromUtf8Error;

use vstd::prelude::*;
use vstd::string::StringSliceAdditionalSpecFns;
use vstd::utf8::{decode_utf8, encode_utf8, valid_utf8};

verus! {

#[verifier::external_type_specification]
#[verifier::external_body]
pub struct ExFromUtf8Error(FromUtf8Error);

/// Decodes `bytes` as UTF-8 with `String::from_utf8`.
///
/// Trusted: std documents that the call succeeds exactly when the bytes are
/// valid UTF-8, and that the resulting string holds those bytes; the contract
/// states this with vstd's UTF-8 model.
#[verifier::external_body]
pub(crate) fn utf8_string(bytes: Vec<u8>) -> (res: Result<String, FromUtf8Error>)
    ensures
        res is Ok <==> valid_utf8(bytes@),
        res matches Ok(s) ==> s@ == decode_utf8(bytes@),
{
    String::from_utf8(bytes)
}

/// Display text of a UTF-8 decoding failure (`FromUtf8Error::to_string`).
///
/// Trusted only to return; the text itself is not specified.
#[verifier::external_body]
pub(crate) fn utf8_error_text(err: &FromUtf8Error) -> String {
    err.to_string()
}

/// Collects characters into a `String` (`FromIterator<&char> for String`).
///
/// Trusted: std documents that collecting characters yields the string made
/// of exactly those characters, in order.
#[verifier::external_body]
pub(crate) fn string_from_chars(chars: &[char]) -> (res: String)
    ensures
        res@ == chars@,
{
    chars.iter().collect()
}

/// `true` exactly when the two strings hold the same characters.
pub fn str_eq(a: &str, b: &str) -> (res: bool)
    ensures
        res == (a@ == b@),
{
    let x = a.as_bytes();
    let y = b.as_bytes();
    proof {
        vstd::utf8::encode_utf8_decode_utf8(a@);
        vstd::utf8::encode_utf8_decode_utf8(b@);
    }
    if x.len() != y.len() {
        return false;
    }
    let mut i: usize = 0;
    while i < x.len()
        invariant
            x@ == encode_utf8(a@),
            y@ == encode_utf8(b@),
            x@.len() == y@.len(),
            i <= x@.len(),
            forall|j: int| 0 <= j < i ==> x@[j] == y@[j],
        decreases x@.len() - i,
    {
        if x[i] != y[i] {
            return false;
        }
        i = i + 1;
    }
    assert(x@ =~= y@);
    true
}

/// The characters of a string, in order.
pub fn chars_of(s: &str) -> (res: Vec<char>)
    ensures
        res@ == s@,
{
    let mut out: Vec<char> = Vec::new();
    for c in iter: s.chars()
        invariant
            out@ == iter.seq().take(iter.index() as int),
    {
        out.push(c);
    }
    out
}

/// The decimal digit character for `d < 10`.
pub open spec fn digit_char(d: nat) -> char {
    ((d + 48) as u8) as char
}

/// Decimal representation of `n`, most significant digit first, no leading zeros.
pub open spec fn decimal(n: nat) -> Seq<char>
    decreases n,
{
    if n < 10 {
        seq![digit_char(n)]
    } else {
        decimal(n / 10).push(digit_char(n % 10))
    }
}

/// Decimal text of an unsigned integer (as `Display` prints it).
pub fn decimal_string(value: u64) -> (res: String)
    ensures
        res@ == decimal(value as nat),
{
    let mut digits: Vec<char> = Vec::new();
    let mut rest: u64 = value;
    // Digits come out least significant first; `digits` holds them reversed.
    while rest >= 10
        invariant
            decimal(value as nat) == decimal(rest as nat) + digits@.reverse(),
        decreases rest,
    {
        let d = rest % 10;
        let c = ((d + 48) as u8) as char;
        proof {
            assert(decimal(rest as nat) == decimal((rest / 10) as nat).push(digit_char((rest % 10) as nat)));
            assert(digits@.push(c).reverse() =~= seq![c] + digits@.reverse());
            assert(decimal((rest / 10) as nat).push(c) + digits@.reverse() =~= decimal((rest / 10) as nat) + (seq![c] + digits@.reverse()));
        }
        digits.push(c);
        rest = rest / 10;
    }
    let c = ((rest + 48) as u8) as char;
    digits.push(c);
    let mut ordered: Vec<char> = Vec::new();
    let mut k: usize = digits.len();
    while k > 0
        invariant
            k <= digits@.len(),
            ordered@ == digits@.subrange(k as int, digits@.len() as int).reverse(),
        decreases k,
    {
        k = k - 1;
        proof {
            assert(digits@.subrange(k as int, digits@.len() as int).reverse() =~= digits@.subrange(
                k + 1,
                digits@.len() as int,
            ).reverse().push(digits@[k as int]));
        }
        ordered.push(digits[k]);
    }
    proof {
        assert(digits@.subrange(0, digits@.len() as int) == digits@);
        assert(decimal(value as nat) =~= digits@.reverse());
    }
    string_from_chars(ordered.as_slice())
}

/// `Debug` rendering of a string (quoted, with escapes), as std prints it.
pub uninterp spec fn debug_text(s: Seq<char>) -> Seq<char>;

/// `format!("{s:?}")`: the quoted, escaped `Debug` form of a string.
///
/// Trusted: std's `Debug for str` output depends on the characters alone; the
/// escaping rules are not restated here and are named by [`debug_text`].
#[verifier::external_body]
pub(crate) fn str_debug(s: &str) -> (res: String)
    ensures
        res@ == debug_text(s@),
{
    format!("{s:?}")
}

} // verus!
