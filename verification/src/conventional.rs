//! The conventional-commit grammar: `type(scope)?!?: title`, an optional
//! body after a blank line, and the breaking-change footer.

use vstd::prelude::*;

use crate::commit::{Commit, CommitView};
use crate::text::{
    drop_blank_prefix, find_from, first_non_blank, has_prefix, join_lines, join_lines_from,
    lines_from, lines_of, opt_text, skip_ws, skip_ws_from, split_lines, starts_with_str,
    str_to_chars,
    string_from_chars, subvec, views_of,
};

verus! {

/// Whether a character beyond ASCII is alphabetic or numeric in Unicode;
/// what `char::is_alphanumeric` answers, a function of the character alone.
pub uninterp spec fn unicode_alphanumeric(c: char) -> bool;

/// Relies on `char::is_alphanumeric`: whether a character belongs to the
/// Unicode alphabetic or numeric categories depends on the character
/// alone.
#[verifier::external_body]
fn is_unicode_alphanumeric(c: char) -> (r: bool)
    ensures
        r == unicode_alphanumeric(c),
{
    c.is_alphanumeric()
}

/// The characters a type or scope-free token may consist of: within ASCII,
/// letters, digits, underscore and hyphen; beyond ASCII, any
/// Unicode-alphanumeric character.
///
/// This tracks the Unicode-aware word class that regular-expression
/// engines call `\w` (plus the hyphen), with one deliberate narrowing:
/// combining marks and connector punctuation other than the underscore do
/// not count, so a token carrying only such characters at its edge is
/// treated as outside the grammar.
pub open spec fn word_char(c: char) -> bool {
    if (c as u32) < 128 {
        ('a' <= c && c <= 'z') || ('A' <= c && c <= 'Z') || ('0' <= c && c <= '9') || c == '_'
            || c == '-'
    } else {
        unicode_alphanumeric(c)
    }
}

/// Executable test for [`word_char`].
fn is_word_char(c: char) -> (r: bool)
    ensures
        r == word_char(c),
{
    if (c as u32) < 128 {
        ('a' <= c && c <= 'z') || ('A' <= c && c <= 'Z') || ('0' <= c && c <= '9') || c == '_'
            || c == '-'
    } else {
        is_unicode_alphanumeric(c)
    }
}

/// End of the maximal run of word characters starting at `i`.
pub open spec fn word_run_end(l: Seq<char>, i: int) -> int
    recommends
        0 <= i <= l.len(),
    decreases l.len() - i,
{
    if 0 <= i < l.len() && word_char(l[i]) {
        word_run_end(l, i + 1)
    } else {
        i
    }
}

/// Executable counterpart of [`word_run_end`] from the line start.
fn word_run(l: &Vec<char>) -> (te: usize)
    ensures
        te == word_run_end(l@, 0),
        0 <= te <= l@.len(),
{
    let mut i: usize = 0;
    while i < l.len()
        invariant
            0 <= i <= l@.len(),
            word_run_end(l@, 0) == word_run_end(l@, i as int),
        decreases l@.len() - i,
    {
        if !is_word_char(l[i]) {
            return i;
        }
        i += 1;
    }
    i
}

/// The parsed pieces of a header line.
pub ghost struct HeaderView {
    /// Type token.
    pub commit_type: Seq<char>,
    /// Scope token, when parenthesized after the type.
    pub scope: Option<Seq<char>>,
    /// The `!` marker stood before the colon.
    pub bang: bool,
    /// Title text after the colon, leading whitespace skipped.
    pub title: Seq<char>,
}

/// Parses a header line `type(scope)?!?: title`.
///
/// The type is the maximal leading run of word characters and must not be
/// empty; a scope is a non-empty parenthesized stretch free of `')'`; after
/// an optional `!` a colon is required, and the title is everything behind
/// it with leading whitespace skipped.  Any violation makes the whole line
/// unparseable.
pub open spec fn parse_header(l: Seq<char>) -> Option<HeaderView> {
    let te = word_run_end(l, 0);
    if te == 0 {
        None
    } else if te < l.len() && l[te] == '(' {
        let j = find_from(l, ')', te + 1);
        if j < l.len() && j > te + 1 {
            finish_header(l, l.subrange(0, te), Some(l.subrange(te + 1, j)), j + 1)
        } else {
            None
        }
    } else {
        finish_header(l, l.subrange(0, te), None, te)
    }
}

/// The tail of [`parse_header`]: optional `!`, mandatory `:`, then the
/// title.
pub open spec fn finish_header(
    l: Seq<char>,
    commit_type: Seq<char>,
    scope: Option<Seq<char>>,
    pos: int,
) -> Option<HeaderView> {
    let bang = pos < l.len() && l[pos] == '!';
    let p2 = if bang {
        pos + 1
    } else {
        pos
    };
    if p2 < l.len() && l[p2] == ':' {
        let ts = skip_ws_from(l, p2 + 1);
        Some(HeaderView { commit_type, scope, bang, title: l.subrange(ts, l.len() as int) })
    } else {
        None
    }
}

/// Executable header pieces.
struct HeaderParts {
    commit_type: Vec<char>,
    scope: Option<Vec<char>>,
    bang: bool,
    title: Vec<char>,
}

impl HeaderParts {
    /// The model of these pieces.
    spec fn model(&self) -> HeaderView {
        HeaderView {
            commit_type: self.commit_type@,
            scope: match self.scope {
                Some(s) => Some(s@),
                None => None,
            },
            bang: self.bang,
            title: self.title@,
        }
    }
}

/// Executable counterpart of [`parse_header`].
fn parse_header_line(l: &Vec<char>) -> (r: Option<HeaderParts>)
    ensures
        match r {
            Some(h) => parse_header(l@) == Some(h.model()),
            None => parse_header(l@) is None,
        },
{
    let te = word_run(l);
    if te == 0 {
        return None;
    }
    let mut pos = te;
    let mut scope: Option<Vec<char>> = None;
    if te < l.len() && l[te] == '(' {
        let j = crate::text::find_char_from(l, ')', te + 1);
        if j < l.len() && j > te + 1 {
            scope = Some(subvec(l, te + 1, j));
            pos = j + 1;
        } else {
            return None;
        }
    }
    let bang = pos < l.len() && l[pos] == '!';
    if bang {
        pos += 1;
    }
    if !(pos < l.len() && l[pos] == ':') {
        return None;
    }
    let ts = skip_ws(l, pos + 1);
    let title = subvec(l, ts, l.len());
    let commit_type = subvec(l, 0, te);
    Some(HeaderParts { commit_type, scope, bang, title })
}

/// The breaking-change footer token.
pub open spec fn breaking_token() -> Seq<char> {
    "BREAKING CHANGE:"@
}

/// The pieces of a fully parsed conventional commit message.
pub ghost struct ParsedView {
    /// Type token.
    pub commit_type: Seq<char>,
    /// Scope token.
    pub scope: Option<Seq<char>>,
    /// Breaking marker next to the type.
    pub breaking_change_flag: bool,
    /// Title text.
    pub title: Seq<char>,
    /// Body text: the message lines after the first, leading blank lines
    /// dropped; absent when nothing remains.
    pub body: Option<Seq<char>>,
    /// The body's first line begins with the breaking-change footer token.
    pub breaking_change_body: bool,
}

/// Parses a whole message: the first line as header, the rest — leading
/// blank lines dropped — as body.  The body is therefore the remaining
/// text rather than "whatever follows one blank line": any number of
/// leading blank lines is tolerated and removed, and a message whose
/// remainder is all blank has no body.  `breaking_change_body` holds
/// exactly when the body's first line begins with the footer token; the
/// token anywhere later, or behind other text on that line, does not
/// count.
pub open spec fn parse_conventional_spec(msg: Seq<char>) -> Option<ParsedView> {
    let ls = lines_of(msg);
    if ls.len() == 0 {
        None
    } else {
        match parse_header(ls[0]) {
            None => None,
            Some(h) => {
                let rest = drop_blank_prefix(ls.drop_first());
                Some(
                    ParsedView {
                        commit_type: h.commit_type,
                        scope: h.scope,
                        breaking_change_flag: h.bang,
                        title: h.title,
                        body: if rest.len() == 0 {
                            None
                        } else {
                            Some(join_lines(rest))
                        },
                        breaking_change_body: rest.len() > 0 && has_prefix(
                            rest[0],
                            breaking_token(),
                        ),
                    },
                )
            }
        }
    }
}

/// The parsed components of a conventional commit message.
#[derive(Clone, Debug)]
pub struct ParsedCommit {
    /// Type token.
    pub commit_type: String,
    /// Scope token.
    pub scope: Option<String>,
    /// Breaking marker next to the type.
    pub breaking_change_flag: bool,
    /// Title text.
    pub title: String,
    /// Body text.
    pub body: Option<String>,
    /// Breaking-change footer opens the body.
    pub breaking_change_body: bool,
}

impl View for ParsedCommit {
    type V = ParsedView;

    open spec fn view(&self) -> ParsedView {
        ParsedView {
            commit_type: self.commit_type@,
            scope: opt_text(self.scope),
            breaking_change_flag: self.breaking_change_flag,
            title: self.title@,
            body: opt_text(self.body),
            breaking_change_body: self.breaking_change_body,
        }
    }
}

/// Parses `message` against the conventional grammar; `None` exactly on the
/// messages that [`parse_conventional_spec`] rejects.
pub fn parse_conventional_commit(message: &str) -> (r: Option<ParsedCommit>)
    ensures
        match r {
            Some(p) => parse_conventional_spec(message@) == Some(p@),
            None => parse_conventional_spec(message@) is None,
        },
{
    let chars = str_to_chars(message);
    let parts = split_lines(&chars);
    let ghost ls = lines_of(message@);
    if parts.len() == 0 {
        return None;
    }
    proof {
        assert(parts@[0]@ == views_of(parts@)[0]);
    }
    let header = parse_header_line(&parts[0]);
    match header {
        None => None,
        Some(h) => {
            let k = first_non_blank(&parts, 1);
            proof {
                assert(views_of(parts@).subrange(1, parts@.len() as int) =~= ls.drop_first());
            }
            let ghost rest = drop_blank_prefix(ls.drop_first());
            let (body, breaking_change_body): (Option<String>, bool) = if k < parts.len() {
                proof {
                    assert(parts@[k as int]@ == views_of(parts@)[k as int]);
                    assert(rest[0] == views_of(parts@).subrange(k as int, parts@.len() as int)[0]);
                }
                let joined = join_lines_from(&parts, k);
                let bb = starts_with_str(&parts[k], "BREAKING CHANGE:");
                (Some(string_from_chars(&joined)), bb)
            } else {
                proof {
                    assert(rest.len() == 0);
                }
                (None, false)
            };
            let commit_type = string_from_chars(&h.commit_type);
            let title = string_from_chars(&h.title);
            let scope = match h.scope {
                Some(s) => Some(string_from_chars(&s)),
                None => None,
            };
            Some(
                ParsedCommit {
                    commit_type,
                    scope,
                    breaking_change_flag: h.bang,
                    title,
                    body,
                    breaking_change_body,
                },
            )
        }
    }
}

/// A text that is a prefix of joined lines is a prefix of the first line,
/// and conversely, provided the text holds no line feed.
proof fn lemma_prefix_of_join(rest: Seq<Seq<char>>, token: Seq<char>)
    requires
        rest.len() > 0,
        forall|i: int| 0 <= i < token.len() ==> token[i] != '\n',
    ensures
        has_prefix(join_lines(rest), token) == has_prefix(rest[0], token),
{
    if rest.len() == 1 {
        assert(join_lines(rest) == rest[0]);
    } else {
        let joined = join_lines(rest);
        let first = rest[0];
        assert(joined == first + seq!['\n'] + join_lines(rest.drop_first()));
        assert(joined.len() > first.len());
        assert(forall|i: int| 0 <= i < first.len() ==> joined[i] == first[i]);
        assert(joined[first.len() as int] == '\n');
        if has_prefix(first, token) {
            assert(joined.subrange(0, token.len() as int) =~= first.subrange(
                0,
                token.len() as int,
            ));
        }
        if has_prefix(joined, token) {
            if token.len() <= first.len() {
                assert(first.subrange(0, token.len() as int) =~= joined.subrange(
                    0,
                    token.len() as int,
                ));
            } else {
                let idx = first.len() as int;
                assert(joined.subrange(0, token.len() as int)[idx] == token[idx]);
                assert(token[idx] == '\n');
                assert(false);
            }
        }
    }
}

/// Position sensitivity of the breaking-change footer: a parsed message with
/// a body is flagged as breaking-by-body exactly when that body begins with
/// the footer token.  The token behind any other text — later in the first
/// body line, or on a later line — does not set the flag.
pub proof fn lemma_breaking_body_iff(msg: Seq<char>)
    ensures
        parse_conventional_spec(msg) matches Some(p) ==> (p.body matches Some(b) ==> (
        p.breaking_change_body <==> has_prefix(b, breaking_token()))),
        parse_conventional_spec(msg) matches Some(p) ==> (p.body is None
            ==> !p.breaking_change_body),
{
    let ls = lines_of(msg);
    if ls.len() > 0 && parse_header(ls[0]) is Some {
        let rest = drop_blank_prefix(ls.drop_first());
        if rest.len() > 0 {
            assert(forall|i: int| 0 <= i < breaking_token().len() ==> breaking_token()[i]
                != '\n') by {
                reveal_strlit("BREAKING CHANGE:");
            }
            lemma_prefix_of_join(rest, breaking_token());
        }
    }
}

/// Position sensitivity over the message as a whole: a parseable header
/// followed by a blank line and body text parses with
/// `breaking_change_body` set exactly when the body text itself begins with
/// the footer token — wherever else the token may occur.
pub proof fn lemma_breaking_body_position(header: Seq<char>, body: Seq<char>)
    requires
        forall|i: int| 0 <= i < header.len() ==> header[i] != '\n' && header[i] != '\r',
        parse_header(header) is Some,
        header.len() > 0,
        body.len() > 0,
        !crate::text::ws_char(body[0]),
    ensures
        parse_conventional_spec(header + seq!['\n', '\n'] + body) matches Some(p) && (
        p.breaking_change_body <==> has_prefix(body, breaking_token())),
{
    let msg = header + seq!['\n', '\n'] + body;
    let n = header.len() as int;
    let token = breaking_token();
    assert(forall|i: int| 0 <= i < token.len() ==> token[i] != '\n' && token[i] != '\r') by {
        reveal_strlit("BREAKING CHANGE:");
    }

    // The message splits into the header line, one empty line, and the
    // body's own lines.
    assert(msg[n] == '\n');
    assert(msg[n + 1] == '\n');
    crate::text::lemma_find_from_first(msg, '\n', 0, n);
    assert(msg.subrange(0, n) =~= header);
    assert(crate::text::strip_cr(header) == header);
    crate::text::lemma_lines_from_suffix(msg, n + 2);
    assert(msg.subrange(n + 2, msg.len() as int) =~= body);
    assert(msg.subrange(n + 1, n + 1) =~= Seq::<char>::empty());
    let ls = lines_of(msg);
    assert(msg.len() == n + 2 + body.len());
    assert(lines_from(msg, 0) == seq![crate::text::strip_cr(msg.subrange(0, n))] + lines_from(
        msg,
        n + 1,
    ));
    assert(lines_from(msg, n + 1) == seq![
        crate::text::strip_cr(msg.subrange(n + 1, n + 1)),
    ] + lines_from(msg, n + 2));
    assert(lines_from(msg, n + 2) == lines_of(body));
    assert(ls == seq![header] + (seq![Seq::<char>::empty()] + lines_of(body)));

    // The header line parses, so the whole message does.
    assert(ls[0] == header);
    assert(ls.len() > 0);

    // The body's first line starts with the body's first character, which
    // is not blank, so nothing of the body is dropped.
    let bls = lines_of(body);
    crate::text::lemma_find_bounds(body, '\n', 0);
    let j = find_from(body, '\n', 0);
    assert(body[0] != '\n');
    assert(j >= 1);
    let l0 = bls[0];
    if j >= body.len() {
        assert(l0 == body.subrange(0, body.len() as int));
        assert(body.subrange(0, body.len() as int) =~= body);
    } else {
        assert(l0 == crate::text::strip_cr(body.subrange(0, j)));
    }
    assert(l0[0] == body[0]);
    assert(l0.len() >= 1);
    assert(!crate::text::is_blank_line(l0));
    assert(ls.drop_first() =~= seq![Seq::<char>::empty()] + bls);
    assert(crate::text::is_blank_line(Seq::<char>::empty()));
    assert((seq![Seq::<char>::empty()] + bls)[0] == Seq::<char>::empty());
    assert((seq![Seq::<char>::empty()] + bls).drop_first() =~= bls);
    assert(drop_blank_prefix(seq![Seq::<char>::empty()] + bls) == drop_blank_prefix(bls));
    assert(drop_blank_prefix(bls) == bls);
    let rest = drop_blank_prefix(ls.drop_first());
    assert(rest == bls);
    assert(rest.len() > 0);

    // The first body line carries the token exactly when the body text
    // does: the token holds no line break, so it cannot straddle the line
    // end, and a trailing carriage return cannot shorten the line into it.
    let jc = if j < body.len() {
        j
    } else {
        body.len() as int
    };
    assert(l0.len() == jc || l0.len() == jc - 1);
    assert(forall|i: int| 0 <= i < l0.len() ==> l0[i] == body[i]);
    if has_prefix(body, token) {
        assert(j >= token.len()) by {
            if j < token.len() {
                assert(body[j] == token[j]);
            }
        }
        if l0.len() < token.len() {
            // Only a stripped carriage return could make the line shorter
            // than the token, and the token's last character is no
            // carriage return.
            assert(l0.len() == jc - 1 && jc == token.len());
            assert(body.subrange(0, j)[j - 1] == '\r');
            assert(body[token.len() - 1] == token[token.len() - 1]);
            assert(false);
        }
        assert(l0.subrange(0, token.len() as int) =~= token);
    }
    if has_prefix(l0, token) {
        assert(token.len() <= l0.len() <= body.len());
        assert(body.subrange(0, token.len() as int) =~= token);
    }
}

/// What [`Commit::parse`] builds from an identifier and a message: the
/// parsed fields when the grammar matches, otherwise a bare record whose
/// title is the first message line verbatim.
pub open spec fn commit_of_parsed(id: Seq<char>, msg: Seq<char>) -> CommitView {
    match parse_conventional_spec(msg) {
        Some(p) => CommitView {
            commit_id: id,
            raw_message: msg,
            commit_type: p.commit_type,
            scope: p.scope,
            breaking_change_flag: p.breaking_change_flag,
            title: p.title,
            body: p.body,
            breaking_change_body: p.breaking_change_body,
            author: None,
        },
        None => CommitView {
            commit_id: id,
            raw_message: msg,
            commit_type: Seq::<char>::empty(),
            scope: None,
            breaking_change_flag: false,
            title: if lines_of(msg).len() > 0 {
                lines_of(msg)[0]
            } else {
                Seq::<char>::empty()
            },
            body: None,
            breaking_change_body: false,
            author: None,
        },
    }
}

/// The parser for messages in the conventional-commit grammar.
pub struct ConventionalCommitParser;

impl ConventionalCommitParser {
    /// The conventional parser; it carries no configuration.
    pub fn new() -> (r: ConventionalCommitParser) {
        ConventionalCommitParser
    }

    /// Parses one message into a commit record; see [`commit_of_parsed`].
    pub fn parse_commit(&self, commit_id: String, message: String) -> (c: Commit)
        ensures
            c@ == commit_of_parsed(commit_id@, message@),
    {
        Commit::parse(commit_id, message)
    }

    /// The name this parser is selected by.
    pub fn name(&self) -> (r: &'static str)
        ensures
            r@ == "conventional"@,
    {
        "conventional"
    }
}

} // verus!
