//! Rendering a changeset into changelog text.
//!
//! The output is a pure function of the commits, the versions and the
//! repository identity: a heading for the new version, one bullet per
//! commit — oldest first — with optional author annotation and an indented
//! body whose headings can be demoted, and a comparison link for recognized
//! hosts.

use vstd::prelude::*;

use crate::changeset::{commit_views, ChangesetSummary};
use crate::commit::{AuthorView, Commit, CommitView};
use crate::repo::{RepoInfo, RepoInfoView};
use crate::text::{
    has_prefix, lines_of, push_all, split_lines, str_to_chars, string_from_chars, subvec,
    trim_end_chars, trim_end_ws,
};
use crate::version::Version;

verus! {

/// The first line of a text; empty when the text has none.
pub open spec fn first_line_of(s: Seq<char>) -> Seq<char> {
    if lines_of(s).len() > 0 {
        lines_of(s)[0]
    } else {
        Seq::<char>::empty()
    }
}

/// The text of a commit's bullet: `type(scope): title` from the parsed
/// fields, or the raw first line for a commit outside the grammar.
pub open spec fn bullet_text(c: CommitView) -> Seq<char> {
    if c.commit_type.len() > 0 {
        match c.scope {
            Some(sc) => c.commit_type + "("@ + sc + "): "@ + c.title,
            None => c.commit_type + ": "@ + c.title,
        }
    } else {
        first_line_of(c.raw_message)
    }
}

/// The author annotation behind a bullet: the handle when one is known,
/// else the name; nothing without an author.
pub open spec fn author_suffix(a: Option<AuthorView>) -> Seq<char> {
    match a {
        Some(av) => match av.username {
            Some(u) => " (by @"@ + u + ")"@,
            None => " (by "@ + av.name + ")"@,
        },
        None => Seq::<char>::empty(),
    }
}

/// One commit's bullet line.
pub open spec fn bullet_line(c: CommitView) -> Seq<char> {
    "* "@ + bullet_text(c) + author_suffix(c.author) + "\n"@
}

/// A body line under heading scaling: the three top heading levels are
/// demoted by exactly three (`#` to `####`, `##` to `#####`, `###` to
/// `######`); deeper headings and other lines pass through, as does
/// everything when scaling is off.
pub open spec fn scale_line(l: Seq<char>, scaling: bool) -> Seq<char> {
    if scaling && has_prefix(l, "# "@) {
        "#### "@ + l.subrange(2, l.len() as int)
    } else if scaling && has_prefix(l, "## "@) {
        "##### "@ + l.subrange(3, l.len() as int)
    } else if scaling && has_prefix(l, "### "@) {
        "###### "@ + l.subrange(4, l.len() as int)
    } else {
        l
    }
}

/// The rendered body lines: each non-empty line indented by two spaces and
/// scaled, an empty line kept as a separator except in first position.
pub open spec fn body_lines_text(ls: Seq<Seq<char>>, first: bool, scaling: bool) -> Seq<char>
    decreases ls.len(),
{
    if ls.len() == 0 {
        Seq::<char>::empty()
    } else {
        (if ls[0].len() == 0 {
            if first {
                Seq::<char>::empty()
            } else {
                seq!['\n']
            }
        } else {
            "  "@ + scale_line(ls[0], scaling) + "\n"@
        }) + body_lines_text(ls.drop_first(), false, scaling)
    }
}

/// A commit body as it appears under its bullet; see [`body_lines_text`].
/// Trailing whitespace is removed.
pub open spec fn formatted_body_spec(b: Seq<char>, scaling: bool) -> Seq<char> {
    trim_end_ws(body_lines_text(lines_of(b), true, scaling))
}

/// Everything one commit contributes: its bullet line, its non-empty body
/// framed by blank separation, and a closing blank line.
pub open spec fn commit_block(c: CommitView, scaling: bool) -> Seq<char> {
    bullet_line(c) + (match c.body {
        Some(b) => if formatted_body_spec(b, scaling).len() > 0 {
            seq!['\n'] + formatted_body_spec(b, scaling) + seq!['\n']
        } else {
            Seq::<char>::empty()
        },
        None => Seq::<char>::empty(),
    }) + seq!['\n']
}

/// The blocks of all commits, rendered oldest first: the commits stand in
/// the sequence newest first, so the last block comes first.
pub open spec fn commits_text(cs: Seq<CommitView>, scaling: bool) -> Seq<char>
    decreases cs.len(),
{
    if cs.len() == 0 {
        Seq::<char>::empty()
    } else {
        commit_block(cs.last(), scaling) + commits_text(cs.drop_last(), scaling)
    }
}

/// Rendering one more (older) commit in front appends its block behind the
/// text of the (newer) rest.
proof fn lemma_commits_text_cons(cs: Seq<CommitView>, x: CommitView, scaling: bool)
    ensures
        commits_text(seq![x] + cs, scaling) == commits_text(cs, scaling) + commit_block(
            x,
            scaling,
        ),
    decreases cs.len(),
{
    let whole = seq![x] + cs;
    if cs.len() == 0 {
        assert(whole.len() == 1);
        assert(whole.last() == x);
        assert(whole.drop_last() =~= Seq::<CommitView>::empty());
        assert(commits_text(whole.drop_last(), scaling) == Seq::<char>::empty());
        assert(commits_text(whole, scaling) == commit_block(x, scaling) + Seq::<char>::empty());
        assert(commit_block(x, scaling) + Seq::<char>::empty() =~= commit_block(x, scaling));
        assert(commits_text(cs, scaling) + commit_block(x, scaling) =~= commit_block(x, scaling));
    } else {
        lemma_commits_text_cons(cs.drop_last(), x, scaling);
        assert(whole.last() == cs.last());
        assert(whole.drop_last() =~= seq![x] + cs.drop_last());
        assert(commits_text(whole, scaling) == commit_block(cs.last(), scaling) + commits_text(
            seq![x] + cs.drop_last(),
            scaling,
        ));
        assert(commits_text(whole, scaling) =~= commits_text(cs, scaling) + commit_block(
            x,
            scaling,
        ));
    }
}

/// The comparison-link line for a recognized host.
pub open spec fn link_text(
    current: Version,
    next: Version,
    owner: Seq<char>,
    name: Seq<char>,
) -> Seq<char> {
    "See full diff: [v"@ + current.text_spec() + "...v"@ + next.text_spec()
        + "](https://github.com/"@ + owner + "/"@ + name + "/compare/v"@ + current.text_spec()
        + "...v"@ + next.text_spec() + ")"@
}

/// The full changelog text; see the module description.  The link line
/// appears only for a github.com repository with a non-zero current
/// version.
pub open spec fn format_changelog_spec(
    cs: Seq<CommitView>,
    next: Version,
    no_header_scaling: bool,
    current: Version,
    repo: RepoInfoView,
) -> Seq<char> {
    "### What's changed in v"@ + next.text_spec() + "\n\n"@ + (if cs.len() == 0 {
        "* No changes\n"@
    } else {
        commits_text(cs, !no_header_scaling)
    }) + (if repo.is_github_repo && (current.major > 0 || current.minor > 0 || current.patch > 0) {
        seq!['\n'] + link_text(current, next, repo.owner, repo.name)
    } else {
        Seq::<char>::empty()
    })
}

/// Scales one body line; see [`scale_line`].
fn scale_body_line(line: &Vec<char>, no_header_scaling: bool) -> (r: Vec<char>)
    ensures
        r@ == scale_line(line@, !no_header_scaling),
{
    if !no_header_scaling && crate::text::starts_with_str(line, "# ") {
        proof {
            reveal_strlit("# ");
        }
        let mut r = str_to_chars("#### ");
        let rest = subvec(line, 2, line.len());
        push_all(&mut r, &rest);
        r
    } else if !no_header_scaling && crate::text::starts_with_str(line, "## ") {
        proof {
            reveal_strlit("## ");
        }
        let mut r = str_to_chars("##### ");
        let rest = subvec(line, 3, line.len());
        push_all(&mut r, &rest);
        r
    } else if !no_header_scaling && crate::text::starts_with_str(line, "### ") {
        proof {
            reveal_strlit("### ");
        }
        let mut r = str_to_chars("###### ");
        let rest = subvec(line, 4, line.len());
        push_all(&mut r, &rest);
        r
    } else {
        subvec(line, 0, line.len())
    }
}

/// Renders a commit body with indentation and heading scaling; see
/// [`formatted_body_spec`].
pub fn format_commit_body(body: &str, no_header_scaling: bool) -> (s: String)
    ensures
        s@ == formatted_body_spec(body@, !no_header_scaling),
{
    let ghost scaling = !no_header_scaling;
    let chars = str_to_chars(body);
    let parts = split_lines(&chars);
    let ghost ls = lines_of(body@);
    let mut acc: Vec<char> = Vec::new();
    let mut i: usize = 0;
    proof {
        assert(ls.subrange(0, ls.len() as int) =~= ls);
    }
    while i < parts.len()
        invariant
            0 <= i <= parts@.len(),
            ls == lines_of(body@),
            crate::text::views_of(parts@) == ls,
            parts@.len() == ls.len(),
            body_lines_text(ls, true, scaling) == acc@ + body_lines_text(
                ls.subrange(i as int, ls.len() as int),
                i == 0,
                scaling,
            ),
            scaling == !no_header_scaling,
        decreases parts@.len() - i,
    {
        let ghost suffix = ls.subrange(i as int, ls.len() as int);
        proof {
            assert(parts@[i as int]@ == ls[i as int]);
            assert(suffix[0] == ls[i as int]);
            assert(suffix.drop_first() =~= ls.subrange(i + 1 as int, ls.len() as int));
        }
        if parts[i].len() == 0 {
            if i > 0 {
                acc.push('\n');
            }
        } else {
            let sc = scale_body_line(&parts[i], no_header_scaling);
            acc.push(' ');
            acc.push(' ');
            push_all(&mut acc, &sc);
            acc.push('\n');
            proof {
                reveal_strlit("  ");
                reveal_strlit("\n");
                assert("  "@ =~= seq![' ', ' ']);
                assert("\n"@ =~= seq!['\n']);
            }
        }
        proof {
            assert(body_lines_text(ls, true, scaling) =~= acc@ + body_lines_text(
                ls.subrange(i + 1 as int, ls.len() as int),
                false,
                scaling,
            ));
        }
        i += 1;
    }
    proof {
        assert(ls.subrange(ls.len() as int, ls.len() as int) =~= Seq::<Seq<char>>::empty());
        assert(acc@ =~= body_lines_text(ls, true, scaling));
    }
    let trimmed = trim_end_chars(&acc);
    string_from_chars(&trimmed)
}

/// Renders one commit's block; see [`commit_block`].
fn commit_block_text(c: &Commit, no_header_scaling: bool) -> (s: String)
    ensures
        s@ == commit_block(c@, !no_header_scaling),
{
    let mut s = String::new();
    s.append("* ");
    if !c.commit_type.as_str().is_empty() {
        s.append(c.commit_type.as_str());
        match &c.scope {
            Some(sc) => {
                s.append("(");
                s.append(sc.as_str());
                s.append("): ");
            }
            None => {
                s.append(": ");
            }
        }
        s.append(c.title.as_str());
    } else {
        let chars = str_to_chars(c.raw_message.as_str());
        let parts = split_lines(&chars);
        if parts.len() > 0 {
            proof {
                assert(parts@[0]@ == crate::text::views_of(parts@)[0]);
            }
            let fl = string_from_chars(&parts[0]);
            s.append(fl.as_str());
        }
    }
    match &c.author {
        Some(a) => {
            match &a.username {
                Some(u) => {
                    s.append(" (by @");
                    s.append(u.as_str());
                    s.append(")");
                }
                None => {
                    s.append(" (by ");
                    s.append(a.name.as_str());
                    s.append(")");
                }
            }
        }
        None => {}
    }
    s.append("\n");
    proof {
        assert(s@ =~= bullet_line(c@));
    }
    match &c.body {
        Some(b) => {
            let fb = format_commit_body(b.as_str(), no_header_scaling);
            if !fb.as_str().is_empty() {
                s.append("\n");
                s.append(fb.as_str());
                s.append("\n");
            }
        }
        None => {}
    }
    s.append("\n");
    proof {
        assert("\n"@ =~= seq!['\n']) by {
            reveal_strlit("\n");
        }
        assert(s@ =~= commit_block(c@, !no_header_scaling));
    }
    s
}

/// Renders all commit blocks, oldest first; see [`commits_text`].
fn render_commits(commits: &Vec<Commit>, no_header_scaling: bool) -> (s: String)
    ensures
        s@ == commits_text(commit_views(commits@), !no_header_scaling),
{
    let ghost cs = commit_views(commits@);
    let mut s = String::new();
    let mut j = commits.len();
    proof {
        assert(cs.subrange(j as int, cs.len() as int) =~= Seq::<CommitView>::empty());
    }
    while j > 0
        invariant
            0 <= j <= commits@.len(),
            cs == commit_views(commits@),
            cs.len() == commits@.len(),
            s@ == commits_text(cs.subrange(j as int, cs.len() as int), !no_header_scaling),
        decreases j,
    {
        j -= 1;
        let blk = commit_block_text(&commits[j], no_header_scaling);
        s.append(blk.as_str());
        proof {
            assert(commits@[j as int]@ == cs[j as int]);
            lemma_commits_text_cons(
                cs.subrange(j + 1 as int, cs.len() as int),
                cs[j as int],
                !no_header_scaling,
            );
            assert(cs.subrange(j as int, cs.len() as int) =~= seq![cs[j as int]] + cs.subrange(
                j + 1 as int,
                cs.len() as int,
            ));
        }
    }
    proof {
        assert(cs.subrange(0, cs.len() as int) =~= cs);
    }
    s
}

/// Renders the changelog for a changeset; see [`format_changelog_spec`].
///
/// Only the summary's commit collection enters the text; the counters do
/// not.  The output is deterministic in its inputs.
#[verifier::rlimit(60)]
pub fn format_changelog(
    summary: &ChangesetSummary,
    next_version: &Version,
    no_header_scaling: bool,
    current_version: &Version,
    repo_info: &RepoInfo,
) -> (s: String)
    ensures
        s@ == format_changelog_spec(
            commit_views(summary.commits@),
            *next_version,
            no_header_scaling,
            *current_version,
            repo_info@,
        ),
{
    let ghost cs = commit_views(summary.commits@);
    let ghost header = "### What's changed in v"@ + next_version.text_spec() + "\n\n"@;
    let ghost middle = header + (if cs.len() == 0 {
        "* No changes\n"@
    } else {
        commits_text(cs, !no_header_scaling)
    });
    let mut s = String::new();
    s.append("### What's changed in v");
    let nv = next_version.text();
    s.append(nv.as_str());
    s.append("\n\n");
    assert(s@ =~= header);
    if summary.commits.len() == 0 {
        s.append("* No changes\n");
    } else {
        let body = render_commits(&summary.commits, no_header_scaling);
        s.append(body.as_str());
    }
    assert(s@ =~= middle);
    if repo_info.is_github_repo && current_version.is_nonzero() {
        s.append("\n");
        proof {
            assert("\n"@ =~= seq!['\n']) by {
                reveal_strlit("\n");
            }
        }
        let cv = current_version.text();
        s.append("See full diff: [v");
        s.append(cv.as_str());
        s.append("...v");
        s.append(nv.as_str());
        s.append("](https://github.com/");
        s.append(repo_info.owner.as_str());
        s.append("/");
        s.append(repo_info.name.as_str());
        s.append("/compare/v");
        s.append(cv.as_str());
        s.append("...v");
        s.append(nv.as_str());
        s.append(")");
        assert(s@ =~= middle + (seq!['\n'] + link_text(
            *current_version,
            *next_version,
            repo_info@.owner,
            repo_info@.name,
        )));
    }
    assert(s@ =~= format_changelog_spec(
        cs,
        *next_version,
        no_header_scaling,
        *current_version,
        repo_info@,
    ));
    s
}

/// The text a run prints: the changelog in changelog mode, else the bare
/// next version.
pub fn output_text(
    next_version: &Version,
    summary: &ChangesetSummary,
    show_changelog: bool,
    no_header_scaling: bool,
    current_version: &Version,
    repo_info: &RepoInfo,
) -> (s: String)
    ensures
        show_changelog ==> s@ == format_changelog_spec(
            commit_views(summary.commits@),
            *next_version,
            no_header_scaling,
            *current_version,
            repo_info@,
        ),
        !show_changelog ==> s@ == next_version.text_spec(),
{
    if show_changelog {
        format_changelog(
            summary,
            next_version,
            no_header_scaling,
            current_version,
            repo_info,
        )
    } else {
        next_version.text()
    }
}

/// The fixed text a run prints when no repository or head can be resolved:
/// the all-zero version, or the no-changes changelog in changelog mode.
pub fn fallback_output(show_changelog: bool) -> (s: String)
    ensures
        show_changelog ==> s@ == "## What's changed in 0.0.0\n\n* No changes\n\n---"@,
        !show_changelog ==> s@ == "0.0.0"@,
{
    if show_changelog {
        String::from_str("## What's changed in 0.0.0\n\n* No changes\n\n---")
    } else {
        String::from_str("0.0.0")
    }
}

} // verus!
