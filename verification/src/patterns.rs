//! Regular-expression support for the configurable parser.
//!
//! Matching is delegated to the `regex` crate.  What a pattern accepts is
//! not restated here: the outcomes of compiling, matching and capturing are
//! named as functions of the pattern and the text alone, and contracts are
//! phrased over those names.

use vstd::prelude::*;

verus! {

/// Default pattern for commit messages that force a major bump.
pub const MAJOR_REGEX_STR: &'static str = r"(?m)^major(\(.+\))?:.*";

/// Default pattern for commit messages that ask for a minor bump.
pub const MINOR_REGEX_STR: &'static str = r"(?m)^(minor|feat)(\(.+\))?:.*";

/// Default pattern for commit messages that ask for no bump.
pub const NOOP_REGEX_STR: &'static str = r"(?m)^(noop|chore)(\(.+\))?:.*";

/// Default pattern for a breaking change: the footer token opening the line
/// right after the title and a blank line.
pub const BREAKING_REGEX_STR: &'static str = r"(?s)^[^\n]*\n\nBREAKING CHANGE:.*";

/// Default pattern extracting the type token from a message header.
pub const TYPE_REGEX_STR: &'static str = r"^([\w-]+)(?:.*)?!?:.*";

/// Default pattern extracting the scope token from a message header.
pub const SCOPE_REGEX_STR: &'static str = r"^[\w-]+(?:\((.*)\))?!?:.*";

/// Pattern extracting the title from a message header.  Title and body
/// extraction are not part of the configurable set: the pattern-set
/// strategy always uses this built-in pattern and [`BODY_REGEX_STR`].
pub const TITLE_REGEX_STR: &'static str = r"^[\w-]+(?:.*)?!?:\s(.*)";

/// Pattern extracting the body behind the header; built-in, see
/// [`TITLE_REGEX_STR`].
pub const BODY_REGEX_STR: &'static str = r"^[\w-]+(?:.*)?!?:\s.*\n\s*(?:BREAKING CHANGE:)?\s*([\s\S]*)";

/// Whether `regex::Regex::new` accepts the pattern.
pub uninterp spec fn regex_pattern_ok(pattern: Seq<char>) -> bool;

/// Whether the pattern matches somewhere in the text; `false` stands in for
/// an uncompilable pattern.
pub uninterp spec fn regex_match_of(pattern: Seq<char>, text: Seq<char>) -> bool;

/// The text of the pattern's first capture group at the pattern's first
/// match in the text; `None` when the pattern does not compile, does not
/// match, or the group takes no part in the match.
pub uninterp spec fn regex_capture1_of(pattern: Seq<char>, text: Seq<char>) -> Option<Seq<char>>;

/// Relies on `regex::Regex::new`: whether it compiles a pattern depends on
/// the pattern alone.
#[verifier::external_body]
pub fn regex_is_valid(pattern: &str) -> (r: bool)
    ensures
        r == regex_pattern_ok(pattern@),
{
    regex::Regex::new(pattern).is_ok()
}

/// Relies on `regex::Regex::is_match`: whether a pattern matches depends on
/// the pattern and the text alone.  A pattern that does not compile is
/// reported as not matching.
#[verifier::external_body]
pub fn regex_try_match(pattern: &str, text: &str) -> (r: bool)
    ensures
        r == regex_match_of(pattern@, text@),
{
    match regex::Regex::new(pattern) {
        Ok(re) => re.is_match(text),
        Err(_) => false,
    }
}

/// Relies on `regex::Regex::captures` (and `Captures::get`): the first
/// capture group's text at the first match depends on the pattern and the
/// text alone.  A pattern that does not compile, a failed match and an
/// unused group all yield `None`.
#[verifier::external_body]
pub fn regex_try_capture1(pattern: &str, text: &str) -> (r: Option<String>)
    ensures
        crate::text::opt_text(r) == regex_capture1_of(pattern@, text@),
{
    match regex::Regex::new(pattern) {
        Ok(re) => re.captures(text).and_then(|c| c.get(1)).map(|m| m.as_str().to_string()),
        Err(_) => None,
    }
}

} // verus!
