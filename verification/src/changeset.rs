//! The aggregate over one history traversal: per-severity counts, the
//! visited commits, and the bump they ask for together.

use vstd::prelude::*;

use crate::commit::{classify, classify_spec, Commit, CommitAuthor, CommitView, AuthorView};
use crate::factory::{parser_parse_spec, Parser, ParserModel};
use crate::severity::{
    bump_severity, lemma_flags_encode_max, max_severity_of, Severity, VersionBump,
};
use crate::text::str_views;

verus! {

/// The commit records a list holds, as their models.
pub open spec fn commit_views(l: Seq<Commit>) -> Seq<CommitView> {
    Seq::new(l.len(), |i: int| l[i]@)
}

/// The `(identifier, message)` texts a list of string pairs holds.
pub open spec fn entry_views(l: Seq<(String, String)>) -> Seq<(Seq<char>, Seq<char>)> {
    Seq::new(l.len(), |i: int| (l[i].0@, l[i].1@))
}

/// The records a parser extracts from a list of `(identifier, message)`
/// entries, in order.
pub open spec fn parsed_commits_spec(
    p: ParserModel,
    entries: Seq<(Seq<char>, Seq<char>)>,
) -> Seq<CommitView> {
    Seq::new(entries.len(), |i: int| parser_parse_spec(p, entries[i].0, entries[i].1))
}

/// The severity of each record under the policy, in order.
pub open spec fn severities_spec(
    cs: Seq<CommitView>,
    major_types: Seq<Seq<char>>,
    minor_types: Seq<Seq<char>>,
    noop_types: Seq<Seq<char>>,
) -> Seq<Severity> {
    Seq::new(cs.len(), |i: int| classify_spec(cs[i], major_types, minor_types, noop_types))
}

/// How often `v` occurs in `s`.
pub open spec fn count_sev(s: Seq<Severity>, v: Severity) -> int
    decreases s.len(),
{
    if s.len() == 0 {
        0
    } else {
        count_sev(s.drop_last(), v) + if s.last() == v {
            1int
        } else {
            0int
        }
    }
}

/// `v` occurs in `s` exactly when its count is positive.
pub proof fn lemma_count_pos(s: Seq<Severity>, v: Severity)
    ensures
        (count_sev(s, v) > 0) <==> (exists|i: int| 0 <= i < s.len() && s[i] == v),
        count_sev(s, v) >= 0,
    decreases s.len(),
{
    if s.len() > 0 {
        lemma_count_pos(s.drop_last(), v);
        if s.last() == v {
            assert(s[s.len() - 1] == v);
        }
        if count_sev(s, v) > 0 && s.last() != v {
            let i = choose|i: int| 0 <= i < s.drop_last().len() && s.drop_last()[i] == v;
            assert(s[i] == v);
        }
        if exists|i: int| 0 <= i < s.len() && s[i] == v {
            let i = choose|i: int| 0 <= i < s.len() && s[i] == v;
            if i < s.len() - 1 {
                assert(s.drop_last()[i] == v);
            }
        }
    }
}

/// A summary of one traversal: how many commits asked for which severity,
/// and the records themselves in visitation order (newest first).
pub struct ChangesetSummary {
    /// Number of major-severity commits.
    pub major: usize,
    /// Number of minor-severity commits.
    pub minor: usize,
    /// Number of patch-severity commits.
    pub patch: usize,
    /// Number of no-op commits.
    pub noop: usize,
    /// The visited commits, newest first.
    pub commits: Vec<Commit>,
}

impl ChangesetSummary {
    /// The empty summary.
    pub fn new() -> (r: ChangesetSummary)
        ensures
            r.major == 0 && r.minor == 0 && r.patch == 0 && r.noop == 0,
            r.commits@.len() == 0,
    {
        ChangesetSummary { major: 0, minor: 0, patch: 0, noop: 0, commits: Vec::new() }
    }
}

/// Parses and classifies every `(identifier, message)` entry and aggregates
/// the result.
///
/// The summary holds one record per entry, in entry order, each the active
/// parser's reading of its message; every counter counts the entries of its
/// severity, the four together covering each entry exactly once.  Each bump
/// flag reports whether its severity occurs at all, so the flags together
/// encode the maximum severity over the whole set — `Noop` for an empty
/// one.
pub fn analyze_commits(
    entries: &Vec<(String, String)>,
    parser: &Parser,
    major_types: &Vec<String>,
    minor_types: &Vec<String>,
    noop_types: &Vec<String>,
) -> (r: (VersionBump, ChangesetSummary))
    ensures
        ({
            let cs = parsed_commits_spec(parser@, entry_views(entries@));
            let sevs = severities_spec(
                cs,
                str_views(major_types@),
                str_views(minor_types@),
                str_views(noop_types@),
            );
            let (bump, summary) = r;
            commit_views(summary.commits@) == cs && summary.major == count_sev(
                sevs,
                Severity::Major,
            ) && summary.minor == count_sev(sevs, Severity::Minor) && summary.patch == count_sev(
                sevs,
                Severity::Patch,
            ) && summary.noop == count_sev(sevs, Severity::Noop) && summary.major + summary.minor
                + summary.patch + summary.noop == entries@.len() && bump.major == (exists|i: int|
                0 <= i < sevs.len() && sevs[i] == Severity::Major) && bump.minor == (exists|i: int|
                0 <= i < sevs.len() && sevs[i] == Severity::Minor) && bump.patch == (exists|i: int|
                0 <= i < sevs.len() && sevs[i] == Severity::Patch) && bump_severity(bump)
                == max_severity_of(sevs)
        }),
{
    let ghost cs = parsed_commits_spec(parser@, entry_views(entries@));
    let ghost maj = str_views(major_types@);
    let ghost min = str_views(minor_types@);
    let ghost noo = str_views(noop_types@);
    let ghost sevs = severities_spec(cs, maj, min, noo);
    let mut bump = VersionBump { major: false, minor: false, patch: false };
    let mut summary = ChangesetSummary::new();
    let mut i: usize = 0;
    while i < entries.len()
        invariant
            0 <= i <= entries@.len(),
            cs == parsed_commits_spec(parser@, entry_views(entries@)),
            sevs == severities_spec(cs, maj, min, noo),
            maj == str_views(major_types@),
            min == str_views(minor_types@),
            noo == str_views(noop_types@),
            sevs.len() == entries@.len(),
            commit_views(summary.commits@) == cs.subrange(0, i as int),
            summary.major == count_sev(sevs.subrange(0, i as int), Severity::Major),
            summary.minor == count_sev(sevs.subrange(0, i as int), Severity::Minor),
            summary.patch == count_sev(sevs.subrange(0, i as int), Severity::Patch),
            summary.noop == count_sev(sevs.subrange(0, i as int), Severity::Noop),
            summary.major + summary.minor + summary.patch + summary.noop == i,
            bump.major == (exists|j: int| 0 <= j < i && sevs[j] == Severity::Major),
            bump.minor == (exists|j: int| 0 <= j < i && sevs[j] == Severity::Minor),
            bump.patch == (exists|j: int| 0 <= j < i && sevs[j] == Severity::Patch),
        decreases entries@.len() - i,
    {
        let id = entries[i].0.clone();
        let message = entries[i].1.clone();
        let commit = parser.parse_commit(id, message);
        proof {
            assert(entry_views(entries@)[i as int] == (entries@[i as int].0@, entries@[
                i as int].1@));
            assert(commit@ == cs[i as int]);
        }
        let sev = classify(&commit, major_types, minor_types, noop_types);
        proof {
            assert(sev == sevs[i as int]);
            assert(sevs.subrange(0, i + 1 as int).drop_last() =~= sevs.subrange(0, i as int));
            assert(sevs.subrange(0, i + 1 as int).last() == sevs[i as int]);
        }
        match sev {
            Severity::Major => {
                bump.major = true;
                summary.major = summary.major + 1;
            }
            Severity::Minor => {
                bump.minor = true;
                summary.minor = summary.minor + 1;
            }
            Severity::Patch => {
                bump.patch = true;
                summary.patch = summary.patch + 1;
            }
            Severity::Noop => {
                summary.noop = summary.noop + 1;
            }
        }
        let ghost prev = summary.commits@;
        summary.commits.push(commit);
        proof {
            assert(commit_views(prev).len() == prev.len());
            assert(commit_views(prev) == cs.subrange(0, i as int));
            assert(cs.len() == entries@.len());
            assert(cs.subrange(0, i as int).len() == i);
            assert(prev.len() == i);
            assert(summary.commits@.len() == i + 1);
            assert(commit_views(summary.commits@).len() == i + 1);
            assert forall|k: int| 0 <= k < i + 1 implies commit_views(summary.commits@)[k]
                == cs.subrange(0, i + 1 as int)[k] by {
                if k < i {
                    assert(summary.commits@[k] == prev[k]);
                    assert(commit_views(prev)[k] == cs.subrange(0, i as int)[k]);
                } else {
                    assert(summary.commits@[k]@ == cs[i as int]);
                }
            }
            assert(commit_views(summary.commits@) =~= cs.subrange(0, i + 1 as int));
        }
        i += 1;
    }
    proof {
        assert(sevs.subrange(0, entries@.len() as int) =~= sevs);
        assert(cs.subrange(0, entries@.len() as int) =~= cs);
        lemma_flags_encode_max(sevs, bump);
    }
    (bump, summary)
}

/// The `(identifier, author)` pairs a lookup list holds, as their models.
pub open spec fn author_entry_views(
    l: Seq<(String, Option<CommitAuthor>)>,
) -> Seq<(Seq<char>, Option<AuthorView>)> {
    Seq::new(
        l.len(),
        |i: int|
            (
                l[i].0@,
                match l[i].1 {
                    Some(a) => Some(a@),
                    None => None,
                },
            ),
    )
}

/// The value of the last lookup entry for `id`, when there is one.
pub open spec fn last_entry_for(
    avs: Seq<(Seq<char>, Option<AuthorView>)>,
    id: Seq<char>,
) -> Option<Option<AuthorView>>
    decreases avs.len(),
{
    if avs.len() == 0 {
        None
    } else if avs.last().0 == id {
        Some(avs.last().1)
    } else {
        last_entry_for(avs.drop_last(), id)
    }
}

/// The author a commit ends up with after enrichment: the last fetched
/// author for its identifier when that lookup produced one, otherwise
/// whatever the commit already had.
pub open spec fn enriched_author(
    c: CommitView,
    avs: Seq<(Seq<char>, Option<AuthorView>)>,
) -> Option<AuthorView> {
    match last_entry_for(avs, c.commit_id) {
        Some(Some(a)) => Some(a),
        _ => c.author,
    }
}

/// A commit with its author replaced and everything else kept.
pub open spec fn with_author_view(c: CommitView, author: Option<AuthorView>) -> CommitView {
    CommitView { author, ..c }
}

/// A field-wise copy of an author.
fn copy_author(a: &CommitAuthor) -> (r: CommitAuthor)
    ensures
        r@ == a@,
{
    CommitAuthor {
        name: a.name.clone(),
        email: a.email.clone(),
        username: match &a.username {
            Some(u) => Some(u.clone()),
            None => None,
        },
    }
}

/// Looks up the author for `id`: the value of the last lookup entry whose
/// identifier matches, when that value is an author.
fn author_for(authors: &Vec<(String, Option<CommitAuthor>)>, id: &String) -> (r: Option<
    CommitAuthor,
>)
    ensures
        match r {
            Some(a) => last_entry_for(author_entry_views(authors@), id@) == Some(Some(a@)),
            None => match last_entry_for(author_entry_views(authors@), id@) {
                Some(Some(_)) => false,
                _ => true,
            },
        },
{
    let ghost avs = author_entry_views(authors@);
    let mut j = authors.len();
    proof {
        assert(avs.subrange(0, authors@.len() as int) =~= avs);
    }
    while j > 0
        invariant
            0 <= j <= authors@.len(),
            avs == author_entry_views(authors@),
            last_entry_for(avs, id@) == last_entry_for(avs.subrange(0, j as int), id@),
        decreases j,
    {
        j -= 1;
        proof {
            assert(avs.subrange(0, j + 1 as int).drop_last() =~= avs.subrange(0, j as int));
            assert(avs.subrange(0, j + 1 as int).last() == avs[j as int]);
        }
        if authors[j].0.eq(id) {
            match &authors[j].1 {
                Some(a) => {
                    return Some(copy_author(a));
                }
                None => {
                    return None;
                }
            }
        }
    }
    proof {
        assert(avs.subrange(0, 0) =~= Seq::empty());
    }
    None
}

/// Attaches fetched author identities to the summary's commits.
///
/// Only the `author` field of a commit may change, and it changes exactly
/// for the commits whose identifier has a fetched author; the counters, the
/// number of commits, their order and every parsed field stay as they were,
/// so the severity and version computed from the summary are unaffected.  A
/// partial or empty lookup list is fine: unmatched commits keep their
/// previous author.
pub fn enhance_with_github_info(
    summary: &mut ChangesetSummary,
    authors: &Vec<(String, Option<CommitAuthor>)>,
)
    ensures
        final(summary).major == old(summary).major,
        final(summary).minor == old(summary).minor,
        final(summary).patch == old(summary).patch,
        final(summary).noop == old(summary).noop,
        final(summary).commits@.len() == old(summary).commits@.len(),
        forall|i: int|
            0 <= i < old(summary).commits@.len() ==> commit_views(final(summary).commits@)[i]
                == with_author_view(
                commit_views(old(summary).commits@)[i],
                enriched_author(
                    commit_views(old(summary).commits@)[i],
                    author_entry_views(authors@),
                ),
            ),
{
    let ghost old_cs = commit_views(old(summary).commits@);
    let ghost avs = author_entry_views(authors@);
    let mut i: usize = 0;
    while i < summary.commits.len()
        invariant
            0 <= i <= summary.commits@.len(),
            summary.commits@.len() == old(summary).commits@.len(),
            summary.major == old(summary).major,
            summary.minor == old(summary).minor,
            summary.patch == old(summary).patch,
            summary.noop == old(summary).noop,
            old_cs == commit_views(old(summary).commits@),
            avs == author_entry_views(authors@),
            forall|k: int|
                0 <= k < i ==> commit_views(summary.commits@)[k] == with_author_view(
                    old_cs[k],
                    enriched_author(old_cs[k], avs),
                ),
            forall|k: int|
                i <= k < summary.commits@.len() ==> summary.commits@[k] == old(
                    summary,
                ).commits@[k],
        decreases summary.commits@.len() - i,
    {
        proof {
            assert(old_cs[i as int] == old(summary).commits@[i as int]@);
            assert(summary.commits@[i as int] == old(summary).commits@[i as int]);
        }
        let ghost prev = summary.commits@;
        let looked_up = author_for(authors, &summary.commits[i].commit_id);
        match looked_up {
            Some(a) => {
                let updated = Commit {
                    commit_id: summary.commits[i].commit_id.clone(),
                    raw_message: summary.commits[i].raw_message.clone(),
                    commit_type: summary.commits[i].commit_type.clone(),
                    scope: match &summary.commits[i].scope {
                        Some(s) => Some(s.clone()),
                        None => None,
                    },
                    breaking_change_flag: summary.commits[i].breaking_change_flag,
                    title: summary.commits[i].title.clone(),
                    body: match &summary.commits[i].body {
                        Some(b) => Some(b.clone()),
                        None => None,
                    },
                    breaking_change_body: summary.commits[i].breaking_change_body,
                    author: Some(a),
                };
                proof {
                    assert(updated@ == with_author_view(old_cs[i as int], enriched_author(
                        old_cs[i as int], avs)));
                }
                summary.commits.set(i, updated);
            }
            None => {
                proof {
                    assert(summary.commits@[i as int]@ == with_author_view(
                        old_cs[i as int],
                        enriched_author(old_cs[i as int], avs),
                    ));
                }
            }
        }
        proof {
            assert forall|k: int| 0 <= k < i + 1 implies commit_views(summary.commits@)[k]
                == with_author_view(old_cs[k], enriched_author(old_cs[k], avs)) by {
                if k < i {
                    assert(summary.commits@[k] == prev[k]);
                    assert(commit_views(prev)[k] == with_author_view(
                        old_cs[k],
                        enriched_author(old_cs[k], avs),
                    ));
                }
            }
            assert forall|k: int| i + 1 <= k < summary.commits@.len() implies summary.commits@[k]
                == old(summary).commits@[k] by {
                assert(summary.commits@[k] == prev[k]);
            }
        }
        i += 1;
    }
}

} // verus!
