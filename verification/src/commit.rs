//! The parsed commit record and its classification into bump severities.

use vstd::prelude::*;

use crate::conventional::{commit_of_parsed, parse_conventional_commit};
use crate::severity::Severity;
use crate::text::{opt_text, str_views};

verus! {

/// The identity behind a commit, as the hosting provider reports it.
#[derive(Clone, Debug)]
pub struct CommitAuthor {
    /// Display name.
    pub name: String,
    /// E-mail address.
    pub email: String,
    /// Account handle, when the commit maps to an account.
    pub username: Option<String>,
}

/// Mathematical model of a [`CommitAuthor`].
pub ghost struct AuthorView {
    /// Display name.
    pub name: Seq<char>,
    /// E-mail address.
    pub email: Seq<char>,
    /// Account handle.
    pub username: Option<Seq<char>>,
}

impl View for CommitAuthor {
    type V = AuthorView;

    open spec fn view(&self) -> AuthorView {
        AuthorView {
            name: self.name@,
            email: self.email@,
            username: opt_text(self.username),
        }
    }
}

/// One commit, with its message decomposed by the active grammar.
///
/// An unparseable message leaves `commit_type` empty and falls back to the
/// first message line as title; callers must tolerate such partial records.
#[derive(Clone, Debug)]
pub struct Commit {
    /// Stable identifier of the underlying commit.
    pub commit_id: String,
    /// Full original message text, verbatim.
    pub raw_message: String,
    /// Leading type token, empty when the message did not match the grammar.
    pub commit_type: String,
    /// Scope token, when one was given in parentheses.
    pub scope: Option<String>,
    /// The explicit breaking marker (`!`) stood next to the type.
    pub breaking_change_flag: bool,
    /// First-line summary.
    pub title: String,
    /// Remaining text, leading blank lines removed; absent when there is
    /// none.
    pub body: Option<String>,
    /// The body's first line begins with the breaking-change footer token.
    pub breaking_change_body: bool,
    /// Author identity, attached only by the enrichment step.
    pub author: Option<CommitAuthor>,
}

/// Mathematical model of a [`Commit`].
pub ghost struct CommitView {
    /// Stable identifier.
    pub commit_id: Seq<char>,
    /// Original message.
    pub raw_message: Seq<char>,
    /// Type token.
    pub commit_type: Seq<char>,
    /// Scope token.
    pub scope: Option<Seq<char>>,
    /// Breaking marker next to the type.
    pub breaking_change_flag: bool,
    /// First-line summary.
    pub title: Seq<char>,
    /// Body text.
    pub body: Option<Seq<char>>,
    /// Breaking-change footer opens the body.
    pub breaking_change_body: bool,
    /// Attached author.
    pub author: Option<AuthorView>,
}

impl View for Commit {
    type V = CommitView;

    open spec fn view(&self) -> CommitView {
        CommitView {
            commit_id: self.commit_id@,
            raw_message: self.raw_message@,
            commit_type: self.commit_type@,
            scope: opt_text(self.scope),
            breaking_change_flag: self.breaking_change_flag,
            title: self.title@,
            body: opt_text(self.body),
            breaking_change_body: self.breaking_change_body,
            author: match self.author {
                Some(a) => Some(a@),
                None => None,
            },
        }
    }
}

/// Does the list hold the given text?
pub open spec fn seq_contains_str(l: Seq<Seq<char>>, x: Seq<char>) -> bool {
    exists|i: int| 0 <= i < l.len() && l[i] == x
}

/// Does the list of strings hold the given one?
pub fn list_contains(l: &Vec<String>, x: &String) -> (r: bool)
    ensures
        r == seq_contains_str(str_views(l@), x@),
{
    let mut i: usize = 0;
    while i < l.len()
        invariant
            0 <= i <= l@.len(),
            forall|j: int| 0 <= j < i ==> str_views(l@)[j] != x@,
        decreases l@.len() - i,
    {
        if l[i].eq(x) {
            assert(str_views(l@)[i as int] == x@);
            return true;
        }
        i += 1;
    }
    false
}

/// The commit demands a major bump: it is marked breaking (by flag or
/// footer), or its type is configured as major.
pub open spec fn is_major_spec(c: CommitView, major_types: Seq<Seq<char>>) -> bool {
    c.breaking_change_flag || c.breaking_change_body || seq_contains_str(
        major_types,
        c.commit_type,
    )
}

/// The commit's type is configured as minor.
pub open spec fn is_minor_spec(c: CommitView, minor_types: Seq<Seq<char>>) -> bool {
    seq_contains_str(minor_types, c.commit_type)
}

/// The commit's type is configured as a no-op.
pub open spec fn is_noop_spec(c: CommitView, noop_types: Seq<Seq<char>>) -> bool {
    seq_contains_str(noop_types, c.commit_type)
}

/// The severity of one commit under a classification policy, first match
/// winning: breaking or major-typed commits are major, then minor types,
/// then no-op types; everything else — unclassified commits included — is
/// conservatively a patch.
pub open spec fn classify_spec(
    c: CommitView,
    major_types: Seq<Seq<char>>,
    minor_types: Seq<Seq<char>>,
    noop_types: Seq<Seq<char>>,
) -> Severity {
    if is_major_spec(c, major_types) {
        Severity::Major
    } else if is_minor_spec(c, minor_types) {
        Severity::Minor
    } else if is_noop_spec(c, noop_types) {
        Severity::Noop
    } else {
        Severity::Patch
    }
}

/// The result of [`classify_spec`] depends on nothing but its arguments:
/// two classifications of the same record under the same policy agree.
pub proof fn lemma_classify_idempotent(
    c: CommitView,
    major_types: Seq<Seq<char>>,
    minor_types: Seq<Seq<char>>,
    noop_types: Seq<Seq<char>>,
    r1: Severity,
    r2: Severity,
)
    requires
        r1 == classify_spec(c, major_types, minor_types, noop_types),
        r2 == classify_spec(c, major_types, minor_types, noop_types),
    ensures
        r1 == r2,
{
}

impl Commit {
    /// A record holding only the identifier and the raw message; every
    /// parsed field is at its empty default.
    pub fn new(commit_id: String, raw_message: String) -> (c: Commit)
        ensures
            c@ == (CommitView {
                commit_id: commit_id@,
                raw_message: raw_message@,
                commit_type: Seq::<char>::empty(),
                scope: None,
                breaking_change_flag: false,
                title: Seq::<char>::empty(),
                body: None,
                breaking_change_body: false,
                author: None,
            }),
    {
        let c = Commit {
            commit_id,
            raw_message,
            commit_type: String::new(),
            scope: None,
            breaking_change_flag: false,
            title: String::new(),
            body: None,
            breaking_change_body: false,
            author: None,
        };
        assert(c@.commit_type =~= Seq::<char>::empty());
        assert(c@.title =~= Seq::<char>::empty());
        c
    }

    /// Parses `message` with the conventional-commit grammar; see
    /// [`commit_of_parsed`] for what each field holds, in particular the
    /// first-line fallback for messages outside the grammar.
    pub fn parse(commit_id: String, message: String) -> (c: Commit)
        ensures
            c@ == commit_of_parsed(commit_id@, message@),
    {
        let parsed = parse_conventional_commit(message.as_str());
        match parsed {
            Some(p) => Commit {
                commit_id,
                raw_message: message,
                commit_type: p.commit_type,
                scope: p.scope,
                breaking_change_flag: p.breaking_change_flag,
                title: p.title,
                body: p.body,
                breaking_change_body: p.breaking_change_body,
                author: None,
            },
            None => {
                let chars = crate::text::str_to_chars(message.as_str());
                let parts = crate::text::split_lines(&chars);
                let title = if parts.len() > 0 {
                    proof {
                        assert(parts@[0]@ == crate::text::views_of(parts@)[0]);
                    }
                    crate::text::string_from_chars(&parts[0])
                } else {
                    String::new()
                };
                Commit {
                    commit_id,
                    raw_message: message,
                    commit_type: String::new(),
                    scope: None,
                    breaking_change_flag: false,
                    title,
                    body: None,
                    breaking_change_body: false,
                    author: None,
                }
            }
        }
    }

    /// Does this commit demand a major bump under the given major types?
    /// See [`is_major_spec`].
    pub fn is_major_change(&self, major_types: &Vec<String>) -> (r: bool)
        ensures
            r == is_major_spec(self@, str_views(major_types@)),
    {
        self.breaking_change_flag || self.breaking_change_body || list_contains(
            major_types,
            &self.commit_type,
        )
    }

    /// Is this commit's type among the given minor types?
    /// See [`is_minor_spec`].
    pub fn is_minor_change(&self, minor_types: &Vec<String>) -> (r: bool)
        ensures
            r == is_minor_spec(self@, str_views(minor_types@)),
    {
        list_contains(minor_types, &self.commit_type)
    }

    /// Is this commit's type among the given no-op types?
    /// See [`is_noop_spec`].
    pub fn is_noop_change(&self, noop_types: &Vec<String>) -> (r: bool)
        ensures
            r == is_noop_spec(self@, str_views(noop_types@)),
    {
        list_contains(noop_types, &self.commit_type)
    }

    /// Does this commit fall through to the default patch severity?
    pub fn is_patch_change(
        &self,
        major_types: &Vec<String>,
        minor_types: &Vec<String>,
        noop_types: &Vec<String>,
    ) -> (r: bool)
        ensures
            r == (classify_spec(
                self@,
                str_views(major_types@),
                str_views(minor_types@),
                str_views(noop_types@),
            ) == Severity::Patch),
    {
        !(self.is_major_change(major_types) || self.is_minor_change(minor_types)
            || self.is_noop_change(noop_types))
    }
}

/// Classifies one commit under the policy; see [`classify_spec`].
pub fn classify(
    c: &Commit,
    major_types: &Vec<String>,
    minor_types: &Vec<String>,
    noop_types: &Vec<String>,
) -> (s: Severity)
    ensures
        s == classify_spec(
            c@,
            str_views(major_types@),
            str_views(minor_types@),
            str_views(noop_types@),
        ),
{
    if c.is_major_change(major_types) {
        Severity::Major
    } else if c.is_minor_change(minor_types) {
        Severity::Minor
    } else if c.is_noop_change(noop_types) {
        Severity::Noop
    } else {
        Severity::Patch
    }
}

} // verus!
