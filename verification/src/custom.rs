//! The pattern-set parsing strategy: every part of the grammar is a
//! configurable regular expression.

use vstd::prelude::*;

use crate::commit::{Commit, CommitView};
use crate::error::VNextError;
use crate::patterns::{
    regex_capture1_of, regex_is_valid, regex_match_of, regex_pattern_ok, regex_try_capture1,
    regex_try_match, BODY_REGEX_STR, BREAKING_REGEX_STR, MAJOR_REGEX_STR, MINOR_REGEX_STR,
    NOOP_REGEX_STR, SCOPE_REGEX_STR, TITLE_REGEX_STR, TYPE_REGEX_STR,
};
use crate::text::{str_to_chars, string_from_chars, trim_chars, trim_ws};

verus! {

/// The configured patterns of a [`CustomRegexParser`].
pub ghost struct CustomPatterns {
    /// Pattern for messages that force a major bump.
    pub major_pattern: Seq<char>,
    /// Pattern for messages that ask for a minor bump.
    pub minor_pattern: Seq<char>,
    /// Pattern for messages that ask for no bump.
    pub noop_pattern: Seq<char>,
    /// Pattern recognising a breaking change.
    pub breaking_pattern: Seq<char>,
    /// Pattern extracting the type token.
    pub type_pattern: Seq<char>,
    /// Pattern extracting the scope token.
    pub scope_pattern: Seq<char>,
}

/// A parser driven by a configured set of regular expressions.
///
/// The bump-level patterns (`major`/`minor`/`noop`) are part of the accepted
/// configuration and validated with the rest; classification itself goes by
/// the extracted type token and the configured type sets, as with the
/// conventional strategy.
pub struct CustomRegexParser {
    major_pattern: String,
    minor_pattern: String,
    noop_pattern: String,
    breaking_pattern: String,
    type_pattern: String,
    scope_pattern: String,
}

impl View for CustomRegexParser {
    type V = CustomPatterns;

    closed spec fn view(&self) -> CustomPatterns {
        CustomPatterns {
            major_pattern: self.major_pattern@,
            minor_pattern: self.minor_pattern@,
            noop_pattern: self.noop_pattern@,
            breaking_pattern: self.breaking_pattern@,
            type_pattern: self.type_pattern@,
            scope_pattern: self.scope_pattern@,
        }
    }
}

/// Every pattern of the set compiles.
pub open spec fn patterns_ok(p: CustomPatterns) -> bool {
    regex_pattern_ok(p.major_pattern) && regex_pattern_ok(p.minor_pattern) && regex_pattern_ok(
        p.noop_pattern,
    ) && regex_pattern_ok(p.breaking_pattern) && regex_pattern_ok(p.type_pattern)
        && regex_pattern_ok(p.scope_pattern)
}

/// The record the pattern set extracts from a message: type and scope from
/// their configured patterns, title and body from the built-in extraction
/// patterns (the body trimmed of surrounding whitespace), and the breaking
/// flag from the configured breaking pattern.  A part whose pattern yields
/// nothing stays at its empty default.
pub open spec fn custom_parse_spec(p: CustomPatterns, id: Seq<char>, msg: Seq<char>) -> CommitView {
    CommitView {
        commit_id: id,
        raw_message: msg,
        commit_type: match regex_capture1_of(p.type_pattern, msg) {
            Some(t) => t,
            None => Seq::<char>::empty(),
        },
        scope: regex_capture1_of(p.scope_pattern, msg),
        breaking_change_flag: regex_match_of(p.breaking_pattern, msg),
        title: match regex_capture1_of(TITLE_REGEX_STR@, msg) {
            Some(t) => t,
            None => Seq::<char>::empty(),
        },
        body: match regex_capture1_of(BODY_REGEX_STR@, msg) {
            Some(b) => Some(trim_ws(b)),
            None => None,
        },
        breaking_change_body: false,
        author: None,
    }
}

impl CustomRegexParser {
    /// Builds a parser from six patterns; `Ok` exactly when every pattern
    /// compiles, and the parser then carries those patterns.
    pub fn new(
        major_pattern: &str,
        minor_pattern: &str,
        noop_pattern: &str,
        breaking_pattern: &str,
        type_pattern: &str,
        scope_pattern: &str,
    ) -> (r: Result<CustomRegexParser, VNextError>)
        ensures
            match r {
                Ok(p) => p@ == (CustomPatterns {
                    major_pattern: major_pattern@,
                    minor_pattern: minor_pattern@,
                    noop_pattern: noop_pattern@,
                    breaking_pattern: breaking_pattern@,
                    type_pattern: type_pattern@,
                    scope_pattern: scope_pattern@,
                }) && patterns_ok(p@),
                Err(e) => !(regex_pattern_ok(major_pattern@) && regex_pattern_ok(minor_pattern@)
                    && regex_pattern_ok(noop_pattern@) && regex_pattern_ok(breaking_pattern@)
                    && regex_pattern_ok(type_pattern@) && regex_pattern_ok(scope_pattern@)) && e
                    is RegexError,
            },
    {
        if regex_is_valid(major_pattern) && regex_is_valid(minor_pattern) && regex_is_valid(
            noop_pattern,
        ) && regex_is_valid(breaking_pattern) && regex_is_valid(type_pattern) && regex_is_valid(
            scope_pattern,
        ) {
            Ok(
                CustomRegexParser {
                    major_pattern: String::from_str(major_pattern),
                    minor_pattern: String::from_str(minor_pattern),
                    noop_pattern: String::from_str(noop_pattern),
                    breaking_pattern: String::from_str(breaking_pattern),
                    type_pattern: String::from_str(type_pattern),
                    scope_pattern: String::from_str(scope_pattern),
                },
            )
        } else {
            Err(VNextError::RegexError(String::from_str("a configured pattern does not compile")))
        }
    }

    /// The parser built from the default patterns.
    pub fn default() -> (r: CustomRegexParser)
        ensures
            r@ == (CustomPatterns {
                major_pattern: MAJOR_REGEX_STR@,
                minor_pattern: MINOR_REGEX_STR@,
                noop_pattern: NOOP_REGEX_STR@,
                breaking_pattern: BREAKING_REGEX_STR@,
                type_pattern: TYPE_REGEX_STR@,
                scope_pattern: SCOPE_REGEX_STR@,
            }),
    {
        CustomRegexParser {
            major_pattern: String::from_str(MAJOR_REGEX_STR),
            minor_pattern: String::from_str(MINOR_REGEX_STR),
            noop_pattern: String::from_str(NOOP_REGEX_STR),
            breaking_pattern: String::from_str(BREAKING_REGEX_STR),
            type_pattern: String::from_str(TYPE_REGEX_STR),
            scope_pattern: String::from_str(SCOPE_REGEX_STR),
        }
    }

    /// Parses one message into a commit record; see [`custom_parse_spec`].
    pub fn parse_commit(&self, commit_id: String, message: String) -> (c: Commit)
        ensures
            c@ == custom_parse_spec(self@, commit_id@, message@),
    {
        let commit_type = match regex_try_capture1(self.type_pattern.as_str(), message.as_str()) {
            Some(t) => t,
            None => String::new(),
        };
        let scope = regex_try_capture1(self.scope_pattern.as_str(), message.as_str());
        let title = match regex_try_capture1(TITLE_REGEX_STR, message.as_str()) {
            Some(t) => t,
            None => String::new(),
        };
        let body = match regex_try_capture1(BODY_REGEX_STR, message.as_str()) {
            Some(b) => {
                let chars = str_to_chars(b.as_str());
                let trimmed = trim_chars(&chars);
                Some(string_from_chars(&trimmed))
            }
            None => None,
        };
        let breaking_change_flag = regex_try_match(
            self.breaking_pattern.as_str(),
            message.as_str(),
        );
        let c = Commit {
            commit_id,
            raw_message: message,
            commit_type,
            scope,
            breaking_change_flag,
            title,
            body,
            breaking_change_body: false,
            author: None,
        };
        assert(c@.commit_type =~= custom_parse_spec(self@, c@.commit_id, c@.raw_message).commit_type);
        assert(c@.title =~= custom_parse_spec(self@, c@.commit_id, c@.raw_message).title);
        c
    }

    /// The name this parser is selected by.
    pub fn name(&self) -> (r: &'static str)
        ensures
            r@ == "custom-regex"@,
    {
        "custom-regex"
    }
}

} // verus!
