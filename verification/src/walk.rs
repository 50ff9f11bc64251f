//! Finding the release boundary and walking the history up to it.
//!
//! The repository is read through the trusted wrappers in
//! [`crate::gitrepo`]; everything those reads feed — tag selection, message
//! analysis, version arithmetic — is verified on the values handed back.

use vstd::prelude::*;

use crate::changeset::{analyze_commits, lemma_count_pos, ChangesetSummary};
use crate::error::VNextError;
use crate::factory::Parser;
use crate::gitrepo::{
    branch_exists, commit_message_of, commit_parent_ids, git_error_text, merge_base_id,
    remote_origin_url, repo_head_id, repo_open, tag_names, tag_target_id, walk_commit_ids,
};
use crate::repo::{repo_info_of_url, RepoInfo};
use crate::severity::VersionBump;
use crate::text::str_views;
use crate::version::{
    next_version_fits, next_version_spec, parse_version, parse_version_spec, Version,
};

verus! {

/// Opens the repository at `path`.
pub fn open_repository_at(path: &str) -> Result<git2::Repository, VNextError> {
    match repo_open(path) {
        Ok(repo) => Ok(repo),
        Err(e) => Err(VNextError::GitError(git_error_text(&e))),
    }
}

/// Opens the repository in the current directory.
pub fn open_repository() -> Result<git2::Repository, VNextError> {
    open_repository_at(".")
}

/// Resolves the head reference to the identifier of the commit it points
/// at.
pub fn resolve_head(repo: &git2::Repository) -> Result<String, VNextError> {
    match repo_head_id(repo) {
        Ok(id) => Ok(id),
        Err(e) => Err(VNextError::GitError(git_error_text(&e))),
    }
}

/// The name of the trunk branch: `main` when it exists, else `master`,
/// else nothing.
pub fn find_trunk_branch(repo: &git2::Repository) -> (r: Option<String>)
    ensures
        r matches Some(name) ==> name@ == "main"@ || name@ == "master"@,
{
    if branch_exists(repo, "main") {
        Some(String::from_str("main"))
    } else if branch_exists(repo, "master") {
        Some(String::from_str("master"))
    } else {
        None
    }
}

/// The numeric triple of a version.
pub open spec fn version_triple(v: Version) -> (u64, u64, u64) {
    (v.major, v.minor, v.patch)
}

/// Strict lexicographic order on numeric triples.
pub open spec fn triple_lt(a: (u64, u64, u64), b: (u64, u64, u64)) -> bool {
    a.0 < b.0 || (a.0 == b.0 && (a.1 < b.1 || (a.1 == b.1 && a.2 < b.2)))
}

/// The `(tag, commit)` texts a list of tag entries holds.
pub open spec fn tag_entry_views(l: Seq<(String, String)>) -> Seq<(Seq<char>, Seq<char>)> {
    Seq::new(l.len(), |i: int| (l[i].0@, l[i].1@))
}

/// Picks the release boundary out of a list of `(tag name, commit
/// identifier)` entries.
///
/// The winner is the entry with the strictly greatest parsed version —
/// leading `'v'` tolerated, unparseable tags ignored — and, among entries
/// of that version, the earliest; entries parsing to `0.0.0` do not count.
/// `None` exactly when no entry parses above `0.0.0`.
pub fn select_latest_tag(tags: &Vec<(String, String)>) -> (r: Option<(String, String, Version)>)
    ensures
        ({
            let tvs = tag_entry_views(tags@);
            match r {
                Some((tag, id, v)) => {
                    &&& parse_version_spec(tag@) == Some(version_triple(v))
                    &&& triple_lt((0u64, 0u64, 0u64), version_triple(v))
                    &&& exists|i: int|
                        {
                            &&& 0 <= i < tvs.len()
                            &&& tvs[i].0 == tag@
                            &&& tvs[i].1 == id@
                            &&& forall|j: int|
                                0 <= j < i ==> (#[trigger] parse_version_spec(tvs[j].0) matches Some(t)
                                    ==> triple_lt(t, version_triple(v)))
                        }
                    &&& forall|j: int|
                        0 <= j < tvs.len() ==> (#[trigger] parse_version_spec(tvs[j].0) matches Some(t)
                            ==> !triple_lt(version_triple(v), t))
                },
                None => forall|j: int|
                    0 <= j < tvs.len() ==> (#[trigger] parse_version_spec(tvs[j].0) matches Some(t)
                        ==> !triple_lt((0u64, 0u64, 0u64), t)),
            }
        }),
{
    let ghost tvs = tag_entry_views(tags@);
    let mut best: Option<(String, String, Version)> = None;
    let ghost mut best_idx: int = 0;
    let mut k: usize = 0;
    while k < tags.len()
        invariant
            0 <= k <= tags@.len(),
            tvs == tag_entry_views(tags@),
            match best {
                Some((tag, id, v)) => {
                    &&& parse_version_spec(tag@) == Some(version_triple(v))
                    &&& triple_lt((0u64, 0u64, 0u64), version_triple(v))
                    &&& 0 <= best_idx < k
                    &&& tvs[best_idx].0 == tag@
                    &&& tvs[best_idx].1 == id@
                    &&& forall|j: int|
                        0 <= j < best_idx ==> (#[trigger] parse_version_spec(tvs[j].0) matches Some(t)
                            ==> triple_lt(t, version_triple(v)))
                    &&& forall|j: int|
                        0 <= j < k ==> (#[trigger] parse_version_spec(tvs[j].0) matches Some(t)
                            ==> !triple_lt(version_triple(v), t))
                },
                None => forall|j: int|
                    0 <= j < k ==> (#[trigger] parse_version_spec(tvs[j].0) matches Some(t) ==> !triple_lt(
                        (0u64, 0u64, 0u64),
                        t,
                    )),
            },
        decreases tags@.len() - k,
    {
        proof {
            assert(tvs[k as int] == (tags@[k as int].0@, tags@[k as int].1@));
        }
        let parsed = parse_version(tags[k].0.as_str());
        match parsed {
            Ok(v) => {
                let beats = match &best {
                    Some((_tag, _id, bv)) => bv.lt(&v),
                    None => Version::zero().lt(&v),
                };
                if beats {
                    best = Some((tags[k].0.clone(), tags[k].1.clone(), v));
                    proof {
                        best_idx = k as int;
                    }
                }
            }
            Err(_) => {}
        }
        k += 1;
    }
    best
}

/// The latest release tag of the repository: its name, the identifier of
/// the commit it points at, and its parsed version, which is above `0.0.0`;
/// `None` when no such tag exists.  Tags that do not resolve to a commit,
/// or do not parse as versions, are ignored.
pub fn find_latest_tag(repo: &git2::Repository) -> (r: Option<(String, String, Version)>)
    ensures
        r matches Some((tag, id, v)) ==> parse_version_spec(tag@) == Some(version_triple(v))
            && triple_lt((0u64, 0u64, 0u64), version_triple(v)),
{
    let names = match tag_names(repo) {
        Ok(names) => names,
        Err(_) => return None,
    };
    let mut entries: Vec<(String, String)> = Vec::new();
    let mut k: usize = 0;
    while k < names.len()
        decreases names@.len() - k,
    {
        match tag_target_id(repo, names[k].as_str()) {
            Some(id) => {
                entries.push((names[k].clone(), id));
            }
            None => {}
        }
        k += 1;
    }
    select_latest_tag(&entries)
}

/// Finds the release boundary: the version to bump from and the commit at
/// which the history walk stops.
///
/// With a release tag, the boundary is its parsed version and the merge
/// base of head and tag commit; without one, it is `0.0.0` and the root
/// commit found by following first parents from head.  A cycle-guard bounds
/// the root search, so the walk terminates on any graph.  A successful
/// result is either the all-zero base or a version above `0.0.0` that some
/// tag text actually parses to — never an invented number.
pub fn find_version_base(repo: &git2::Repository, head_id: &String) -> (r: Result<
    (Version, String),
    VNextError,
>)
    ensures
        r matches Ok((v, base)) ==> (v == (Version { major: 0u64, minor: 0u64, patch: 0u64 }) || (
        triple_lt((0u64, 0u64, 0u64), version_triple(v)) && exists|t: Seq<char>|
            #[trigger] parse_version_spec(t) == Some(version_triple(v)))),
{
    match find_latest_tag(repo) {
        Some((tag, tag_commit_id, version)) => {
            proof {
                assert(parse_version_spec(tag@) == Some(version_triple(version)));
            }
            match merge_base_id(repo, head_id.as_str(), tag_commit_id.as_str()) {
                Ok(base) => Ok((version, base)),
                Err(e) => Err(VNextError::GitError(git_error_text(&e))),
            }
        }
        None => {
            let mut current = head_id.clone();
            let mut fuel: u64 = 0xFFFF_FFFF;
            while fuel > 0
                decreases fuel,
            {
                fuel -= 1;
                let parents = match commit_parent_ids(repo, current.as_str()) {
                    Ok(parents) => parents,
                    Err(e) => return Err(VNextError::GitError(git_error_text(&e))),
                };
                if parents.len() == 0 {
                    return Ok((Version::zero(), current));
                }
                current = parents[0].clone();
            }
            Err(VNextError::GitError(String::from_str("first-parent chain does not end")))
        }
    }
}

/// The bump flags a summary's counters encode.
pub open spec fn bump_of_summary(s: ChangesetSummary) -> VersionBump {
    VersionBump { major: s.major > 0, minor: s.minor > 0, patch: s.patch > 0 }
}

/// Walks the history from `to` back to the release boundary `from` and
/// classifies every commit on the way.
///
/// The commits reachable from `to` are visited newest first, minus those
/// reachable from the boundary commit `from` — but only when a release tag
/// exists: without one the boundary is the root commit and the entire
/// history is in scope, so a repository whose only commit is untagged is
/// itself analyzed.  Whatever the repository holds, the returned summary
/// counts each visited commit in exactly one severity class, and each bump
/// flag is set exactly when its class is non-empty.
pub fn calculate_version_bump(
    repo: &git2::Repository,
    from: &String,
    to: &String,
    parser: &Parser,
    major_types: &Vec<String>,
    minor_types: &Vec<String>,
    noop_types: &Vec<String>,
) -> (r: Result<(VersionBump, ChangesetSummary), VNextError>)
    ensures
        r matches Ok((bump, summary)) ==> {
            &&& summary.major + summary.minor + summary.patch + summary.noop
                == summary.commits@.len()
            &&& bump == bump_of_summary(summary)
        },
{
    let exclude = match find_latest_tag(repo) {
        Some((_tag, _id, _v)) => Some(from),
        None => None,
    };
    let ids = match walk_commit_ids(repo, to.as_str(), exclude) {
        Ok(ids) => ids,
        Err(e) => return Err(VNextError::GitError(git_error_text(&e))),
    };
    let mut entries: Vec<(String, String)> = Vec::new();
    let mut k: usize = 0;
    while k < ids.len()
        decreases ids@.len() - k,
    {
        let message = match commit_message_of(repo, ids[k].as_str()) {
            Ok(message) => message,
            Err(e) => return Err(VNextError::GitError(git_error_text(&e))),
        };
        entries.push((ids[k].clone(), message));
        k += 1;
    }
    let (bump, summary) = analyze_commits(&entries, parser, major_types, minor_types, noop_types);
    proof {
        let cs = crate::changeset::parsed_commits_spec(
            parser@,
            crate::changeset::entry_views(entries@),
        );
        let sevs = crate::changeset::severities_spec(
            cs,
            str_views(major_types@),
            str_views(minor_types@),
            str_views(noop_types@),
        );
        lemma_count_pos(sevs, crate::severity::Severity::Major);
        lemma_count_pos(sevs, crate::severity::Severity::Minor);
        lemma_count_pos(sevs, crate::severity::Severity::Patch);
    }
    Ok((bump, summary))
}

/// Computes the next version from the history between the release boundary
/// and `head`.
///
/// The summary is the one [`calculate_version_bump`] yields, and the
/// version is exactly the bump its counters encode applied to
/// `start_version`; a bump that would overflow a version component is
/// reported as an error instead.
pub fn calculate_version(
    repo: &git2::Repository,
    head: &String,
    start_version: &Version,
    base_commit: &String,
    parser: &Parser,
    major_types: &Vec<String>,
    minor_types: &Vec<String>,
    noop_types: &Vec<String>,
) -> (r: Result<(Version, ChangesetSummary), VNextError>)
    ensures
        r matches Ok((v, summary)) ==> {
            &&& summary.major + summary.minor + summary.patch + summary.noop
                == summary.commits@.len()
            &&& next_version_fits(*start_version, bump_of_summary(summary))
            &&& v == next_version_spec(*start_version, bump_of_summary(summary))
        },
{
    let result = calculate_version_bump(
        repo,
        base_commit,
        head,
        parser,
        major_types,
        minor_types,
        noop_types,
    );
    match result {
        Ok((bump, summary)) => {
            let fits = if bump.major {
                start_version.major < 0xFFFF_FFFF_FFFF_FFFF
            } else if bump.minor {
                start_version.minor < 0xFFFF_FFFF_FFFF_FFFF
            } else if bump.patch {
                start_version.patch < 0xFFFF_FFFF_FFFF_FFFF
            } else {
                true
            };
            if !fits {
                return Err(
                    VNextError::VersionError(String::from_str("version component overflow")),
                );
            }
            let next = crate::version::calculate_next_version(start_version, &bump);
            Ok((next, summary))
        }
        Err(e) => Err(e),
    }
}

/// Reads the repository's identity off its `origin` remote: whatever URL
/// the remote carries is interpreted by [`repo_info_of_url`], whose
/// contract fixes owner, name and host flags as functions of that URL.  A
/// repository without a readable remote yields the empty identity; at most
/// one host flag is ever set.
pub fn get_repo_info(repo: &git2::Repository) -> (r: RepoInfo)
    ensures
        !(r.is_github_repo && r.is_gitlab_repo),
        !(r.is_github_repo && r.is_bitbucket_repo),
        !(r.is_gitlab_repo && r.is_bitbucket_repo),
{
    match remote_origin_url(repo) {
        Some(url) => repo_info_of_url(url.as_str()),
        None => RepoInfo::new(),
    }
}

} // verus!
