//! Selecting a parsing strategy and building the parser it names.

use vstd::prelude::*;

use crate::commit::{Commit, CommitView};
use crate::conventional::{commit_of_parsed, ConventionalCommitParser};
use crate::custom::{custom_parse_spec, patterns_ok, CustomPatterns, CustomRegexParser};
use crate::patterns::{
    regex_pattern_ok, BREAKING_REGEX_STR, MAJOR_REGEX_STR, MINOR_REGEX_STR, NOOP_REGEX_STR,
    SCOPE_REGEX_STR, TYPE_REGEX_STR,
};

verus! {

/// Which way commit messages are parsed, fixed once per run.
#[derive(Clone, Debug)]
pub enum ParserStrategy {
    /// The conventional-commit grammar.
    Conventional,
    /// A configured set of regular expressions, one per message part.
    CustomRegex {
        /// Pattern for messages that force a major bump.
        major_pattern: String,
        /// Pattern for messages that ask for a minor bump.
        minor_pattern: String,
        /// Pattern for messages that ask for no bump.
        noop_pattern: String,
        /// Pattern recognising a breaking change.
        breaking_pattern: String,
        /// Pattern extracting the type token.
        type_pattern: String,
        /// Pattern extracting the scope token.
        scope_pattern: String,
    },
}

impl Default for ParserStrategy {
    /// The default strategy: the conventional grammar.
    fn default() -> (r: ParserStrategy)
        ensures
            r is Conventional,
    {
        ParserStrategy::Conventional
    }
}

/// A ready-to-use message parser: one of the two strategies, with its
/// configuration resolved.
pub enum Parser {
    /// The conventional-commit grammar.
    Conventional(ConventionalCommitParser),
    /// A validated pattern set.
    CustomRegex(CustomRegexParser),
}

/// Model of a [`Parser`]: the strategy and, for the pattern set, its
/// patterns.
pub ghost enum ParserModel {
    /// The conventional-commit grammar.
    Conventional,
    /// A pattern set.
    CustomRegex(CustomPatterns),
}

impl View for Parser {
    type V = ParserModel;

    open spec fn view(&self) -> ParserModel {
        match self {
            Parser::Conventional(_) => ParserModel::Conventional,
            Parser::CustomRegex(p) => ParserModel::CustomRegex(p@),
        }
    }
}

/// The record a parser extracts from one message.
pub open spec fn parser_parse_spec(p: ParserModel, id: Seq<char>, msg: Seq<char>) -> CommitView {
    match p {
        ParserModel::Conventional => commit_of_parsed(id, msg),
        ParserModel::CustomRegex(pats) => custom_parse_spec(pats, id, msg),
    }
}

impl Parser {
    /// Parses one message with the active strategy; see
    /// [`parser_parse_spec`].
    pub fn parse_commit(&self, commit_id: String, message: String) -> (c: Commit)
        ensures
            c@ == parser_parse_spec(self@, commit_id@, message@),
    {
        match self {
            Parser::Conventional(p) => p.parse_commit(commit_id, message),
            Parser::CustomRegex(p) => p.parse_commit(commit_id, message),
        }
    }

    /// The name of the active strategy.
    pub fn name(&self) -> (r: &'static str)
        ensures
            self@ is Conventional ==> r@ == "conventional"@,
            self@ is CustomRegex ==> r@ == "custom-regex"@,
    {
        match self {
            Parser::Conventional(p) => p.name(),
            Parser::CustomRegex(p) => p.name(),
        }
    }
}

/// Builds parsers from strategies.
pub struct ParserFactory;

impl ParserFactory {
    /// Builds the parser a strategy names.  A pattern set whose patterns do
    /// not all compile is a recoverable configuration error: the built-in
    /// default patterns take its place rather than failing the run.
    pub fn create(strategy: &ParserStrategy) -> (r: Parser)
        ensures
            match strategy {
                ParserStrategy::Conventional => r@ is Conventional,
                ParserStrategy::CustomRegex {
                    major_pattern,
                    minor_pattern,
                    noop_pattern,
                    breaking_pattern,
                    type_pattern,
                    scope_pattern,
                } => {
                    let given = CustomPatterns {
                        major_pattern: major_pattern@,
                        minor_pattern: minor_pattern@,
                        noop_pattern: noop_pattern@,
                        breaking_pattern: breaking_pattern@,
                        type_pattern: type_pattern@,
                        scope_pattern: scope_pattern@,
                    };
                    r@ matches ParserModel::CustomRegex(pats) && (patterns_ok(given) ==> pats
                        == given) && (!patterns_ok(given) ==> pats == (CustomPatterns {
                        major_pattern: MAJOR_REGEX_STR@,
                        minor_pattern: MINOR_REGEX_STR@,
                        noop_pattern: NOOP_REGEX_STR@,
                        breaking_pattern: BREAKING_REGEX_STR@,
                        type_pattern: TYPE_REGEX_STR@,
                        scope_pattern: SCOPE_REGEX_STR@,
                    }))
                },
            },
    {
        match strategy {
            ParserStrategy::Conventional => Parser::Conventional(ConventionalCommitParser::new()),
            ParserStrategy::CustomRegex {
                major_pattern,
                minor_pattern,
                noop_pattern,
                breaking_pattern,
                type_pattern,
                scope_pattern,
            } => {
                match CustomRegexParser::new(
                    major_pattern.as_str(),
                    minor_pattern.as_str(),
                    noop_pattern.as_str(),
                    breaking_pattern.as_str(),
                    type_pattern.as_str(),
                    scope_pattern.as_str(),
                ) {
                    Ok(p) => Parser::CustomRegex(p),
                    Err(_) => Parser::CustomRegex(CustomRegexParser::default()),
                }
            }
        }
    }
}

} // verus!
