//! The read-only repository collaborator, behind trusted wrappers.
//!
//! Everything here reads repository state through the `git2` crate.  What
//! these calls yield depends on what is on disk, so no wrapper promises a
//! particular result; the functions in [`crate::walk`] that consume them
//! state what holds of every outcome.

use vstd::prelude::*;

verus! {

/// A handle on an opened repository, opaque to the verifier.
#[verifier::external_type_specification]
#[verifier::external_body]
pub struct ExRepository(git2::Repository);

/// A `git2` error value, opaque to the verifier.
#[verifier::external_type_specification]
#[verifier::external_body]
pub struct ExGitError(git2::Error);

/// Relies on `git2::Error::message`: yields the error's description.
#[verifier::external_body]
pub fn git_error_text(e: &git2::Error) -> String {
    e.message().to_string()
}

/// Relies on `git2::Repository::open`: opens the repository at `path`.
#[verifier::external_body]
pub fn repo_open(path: &str) -> Result<git2::Repository, git2::Error> {
    git2::Repository::open(path)
}

/// Relies on `git2::Repository::head` and `Reference::peel_to_commit`:
/// yields the identifier of the commit the head points at.
#[verifier::external_body]
pub fn repo_head_id(repo: &git2::Repository) -> Result<String, git2::Error> {
    let head = repo.head()?;
    let commit = head.peel_to_commit()?;
    Ok(commit.id().to_string())
}

/// Relies on `git2::Repository::find_branch`: whether a local branch of
/// this name exists.
#[verifier::external_body]
pub fn branch_exists(repo: &git2::Repository, name: &str) -> bool {
    repo.find_branch(name, git2::BranchType::Local).is_ok()
}

/// Relies on `git2::Repository::tag_names`: the names of all tags.
#[verifier::external_body]
pub fn tag_names(repo: &git2::Repository) -> Result<Vec<String>, git2::Error> {
    Ok(
        repo.tag_names(None)?.iter().filter_map(
            |t| t.ok().flatten().map(|s| s.to_string()),
        ).collect(),
    )
}

/// Relies on `git2::Repository::find_reference` and
/// `Reference::peel_to_commit`: the identifier of the commit a tag points
/// at, `None` when the tag cannot be resolved to a commit.
#[verifier::external_body]
pub fn tag_target_id(repo: &git2::Repository, tag: &str) -> Option<String> {
    let name = format!("refs/tags/{}", tag);
    let reference = repo.find_reference(&name).ok()?;
    let commit = reference.peel_to_commit().ok()?;
    Some(commit.id().to_string())
}

/// Relies on `git2::Repository::merge_base` (and `Oid::from_str` for the
/// arguments): the lowest common ancestor of two commits.
#[verifier::external_body]
pub fn merge_base_id(
    repo: &git2::Repository,
    one: &str,
    two: &str,
) -> Result<String, git2::Error> {
    let a = git2::Oid::from_str(one)?;
    let b = git2::Oid::from_str(two)?;
    Ok(repo.merge_base(a, b)?.to_string())
}

/// Relies on `git2::Repository::find_commit` and `Commit::parent_ids`: the
/// identifiers of a commit's parents, in order.
#[verifier::external_body]
pub fn commit_parent_ids(repo: &git2::Repository, id: &str) -> Result<Vec<String>, git2::Error> {
    let oid = git2::Oid::from_str(id)?;
    let commit = repo.find_commit(oid)?;
    Ok(commit.parent_ids().map(|p| p.to_string()).collect())
}

/// Relies on `git2::Repository::find_commit` and `Commit::message`: the
/// commit's message text, empty when it is not valid text.
#[verifier::external_body]
pub fn commit_message_of(repo: &git2::Repository, id: &str) -> Result<String, git2::Error> {
    let oid = git2::Oid::from_str(id)?;
    let commit = repo.find_commit(oid)?;
    Ok(commit.message().unwrap_or("").to_string())
}

/// Relies on `git2::Repository::revwalk` with `Revwalk::push` and
/// `Revwalk::push_range`: the identifiers of the commits reachable from
/// `from`, minus those reachable from `exclude` when one is given, newest
/// first.
#[verifier::external_body]
pub fn walk_commit_ids(
    repo: &git2::Repository,
    from: &str,
    exclude: Option<&String>,
) -> Result<Vec<String>, git2::Error> {
    let mut walk = repo.revwalk()?;
    match exclude {
        Some(base) => walk.push_range(&format!("{}..{}", base, from))?,
        None => walk.push(git2::Oid::from_str(from)?)?,
    }
    walk.map(|step| step.map(|oid| oid.to_string())).collect()
}

/// Relies on `git2::Repository::find_remote` and `Remote::url`: the URL of
/// the `origin` remote, when the remote exists and its URL is valid text.
#[verifier::external_body]
pub fn remote_origin_url(repo: &git2::Repository) -> Option<String> {
    let remote = repo.find_remote("origin").ok()?;
    let url = remote.url().ok()?;
    Some(url.to_string())
}

} // verus!
