//! Logging options and filter-directive parsing for the `tracing`
//! subscriber that the application installs.

use vstd::prelude::*;
use vstd::string::StringExecFns;

use crate::errors::PhalanxError;
use crate::text::chars_of;

verus! {

#[verifier::external_type_specification]
#[verifier::external_body]
pub struct ExEnvFilter(tracing_subscriber::EnvFilter);

#[verifier::external_type_specification]
#[verifier::external_body]
pub struct ExFilterParseError(tracing_subscriber::filter::ParseError);

/// Default filter when `RUST_LOG` is unset: lifecycle events only.
pub const DEFAULT_ENV_FILTER: &'static str = "info";

/// Options controlling how the global subscriber is installed.
///
/// `Default` yields CLI-friendly settings: inherit `RUST_LOG` (else `info`)
/// and hide module targets.
#[derive(Debug, Clone)]
pub struct LogConfig {
    /// Filter directive string, e.g. `"info"` or `"phalanx=debug,warn"`;
    /// `None` reads `RUST_LOG`, falling back to [`DEFAULT_ENV_FILTER`].
    pub filter: Option<String>,
    /// Include the log target (module path) in each line.
    pub show_target: bool,
}

impl Default for LogConfig {
    /// No explicit filter, targets hidden.
    fn default() -> (res: Self)
        ensures
            res.filter is None,
            !res.show_target,
    {
        LogConfig { filter: None, show_target: false }
    }
}

/// Unicode `White_Space` characters: what `char::is_whitespace` reports and
/// `str::trim` strips.
pub open spec fn is_unicode_space(c: char) -> bool {
    ||| '\t' <= c <= '\r'
    ||| c == ' '
    ||| c == '\u{85}'
    ||| c == '\u{a0}'
    ||| c == '\u{1680}'
    ||| '\u{2000}' <= c <= '\u{200a}'
    ||| c == '\u{2028}'
    ||| c == '\u{2029}'
    ||| c == '\u{202f}'
    ||| c == '\u{205f}'
    ||| c == '\u{3000}'
}

/// Directive strings the filter parser is known to handle without panicking.
///
/// The parser trims each comma-separated directive but cuts the untrimmed
/// text at the trimmed positions, so leading whitespace in front of a
/// multi-byte character can cut inside that character. This holds when the
/// string is ASCII (every position is a character boundary) or when no
/// directive starts with whitespace (trimming then moves no position). Some
/// strings outside this set do not panic either; they are not told apart.
pub open spec fn directive_safe(d: Seq<char>) -> bool {
    ||| forall|k: int| 0 <= k < d.len() ==> (#[trigger] d[k] as u32) < 0x80
    ||| forall|k: int| 0 <= k < d.len() ==> !#[trigger] space_opens_directive(d, k)
}

/// Character `k` starts a comma-separated directive and is whitespace.
pub open spec fn space_opens_directive(d: Seq<char>, k: int) -> bool {
    (k == 0 || d[k - 1] == ',') && is_unicode_space(d[k])
}

fn is_space(c: char) -> (res: bool)
    ensures
        res == is_unicode_space(c),
{
    ('\t' <= c && c <= '\r') || c == ' ' || c == '\u{85}' || c == '\u{a0}' || c == '\u{1680}'
        || ('\u{2000}' <= c && c <= '\u{200a}') || c == '\u{2028}' || c == '\u{2029}' || c == '\u{202f}'
        || c == '\u{205f}' || c == '\u{3000}'
}

fn all_ascii(chars: &Vec<char>) -> (res: bool)
    ensures
        res == forall|k: int| 0 <= k < chars@.len() ==> (#[trigger] chars@[k] as u32) < 0x80,
{
    let mut i: usize = 0;
    while i < chars.len()
        invariant
            i <= chars@.len(),
            forall|k: int| 0 <= k < i ==> (#[trigger] chars@[k] as u32) < 0x80,
        decreases chars@.len() - i,
    {
        if (chars[i] as u32) >= 0x80 {
            return false;
        }
        i = i + 1;
    }
    true
}

fn no_leading_space(chars: &Vec<char>) -> (res: bool)
    ensures
        res == forall|k: int| 0 <= k < chars@.len() ==> !#[trigger] space_opens_directive(chars@, k),
{
    let mut i: usize = 0;
    while i < chars.len()
        invariant
            i <= chars@.len(),
            forall|k: int| 0 <= k < i ==> !#[trigger] space_opens_directive(chars@, k),
        decreases chars@.len() - i,
    {
        if (i == 0 || chars[i - 1] == ',') && is_space(chars[i]) {
            assert(space_opens_directive(chars@, i as int));
            return false;
        }
        i = i + 1;
    }
    true
}

/// Whether a directive string lies in [`directive_safe`].
pub fn directive_is_safe(directive: &str) -> (res: bool)
    ensures
        res == directive_safe(directive@),
{
    let chars = chars_of(directive);
    all_ascii(&chars) || no_leading_space(&chars)
}

/// Whether `tracing_subscriber` accepts a filter directive string.
pub uninterp spec fn directive_parses(directive: Seq<char>) -> bool;

/// `EnvFilter::try_new(directive)`.
///
/// Trusted: `try_new` parses with a default builder (no environment read),
/// so whether it succeeds depends on the directive alone; that outcome is
/// named [`directive_parses`]. The filter itself is opaque. The parser can
/// panic on a directive with whitespace before a multi-byte character, so
/// only [`directive_safe`] strings are admitted.
#[verifier::external_body]
fn env_filter(directive: &str) -> (res: Result<tracing_subscriber::EnvFilter, tracing_subscriber::filter::ParseError>)
    requires
        directive_safe(directive@),
    ensures
        res is Ok <==> directive_parses(directive@),
{
    tracing_subscriber::EnvFilter::try_new(directive)
}

/// Display text of a directive parse failure (`ParseError::to_string`).
///
/// Trusted only to return; the text is not stated.
#[verifier::external_body]
fn filter_error_text(err: &tracing_subscriber::filter::ParseError) -> String {
    err.to_string()
}

/// Parse an explicit filter directive for the subscriber.
///
/// Fails with [`PhalanxError::Config`] (`invalid log filter '<directive>':
/// <reason>`) exactly when the directive does not parse. Strings outside
/// [`directive_safe`] are not admitted: the parser may panic on them (test
/// with [`directive_is_safe`] first).
pub fn parse_filter(directive: &str) -> (res: Result<tracing_subscriber::EnvFilter, PhalanxError>)
    requires
        directive_safe(directive@),
    ensures
        directive_parses(directive@) ==> res is Ok,
        !directive_parses(directive@) ==> (res matches Err(PhalanxError::Config(m)) && m@.len()
            >= 20 + directive@.len() && m@.subrange(0, 20 + directive@.len() as int) == "invalid log filter '"@
            + directive@),
{
    match env_filter(directive) {
        Ok(filter) => Ok(filter),
        Err(err) => {
            let mut m = "invalid log filter '".to_owned();
            m.append(directive);
            let ghost head = m@;
            m.append("': ");
            m.append(filter_error_text(&err).as_str());
            proof {
                reveal_strlit("invalid log filter '");
                assert(m@.subrange(0, 20 + directive@.len() as int) =~= head);
            }
            Err(PhalanxError::Config(m))
        },
    }
}

} // verus!
