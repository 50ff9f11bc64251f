//! Error type shared by the fallible operations of this crate.

use vstd::prelude::*;

verus! {

/// The error cases that the library distinguishes.
///
/// Absence conditions (no repository, no head, no tags) are not errors: they
/// are reported as `None` / fallback results by the functions that detect
/// them.  The variants here carry a plain-text description of what failed.
#[derive(Debug, Clone)]
pub enum VNextError {
    /// A repository operation failed.
    GitError(String),
    /// A configured pattern could not be compiled.
    RegexError(String),
    /// The hosting-provider lookup failed.
    GithubError(String),
    /// A version string could not be parsed.
    VersionError(String),
    /// Anything else.
    Other(String),
}

impl VNextError {
    /// A plain-text description of the error.
    pub fn message(&self) -> (r: String)
        ensures
            r@ == self.text(),
    {
        match self {
            VNextError::GitError(s) => s.clone(),
            VNextError::RegexError(s) => s.clone(),
            VNextError::GithubError(s) => s.clone(),
            VNextError::VersionError(s) => s.clone(),
            VNextError::Other(s) => s.clone(),
        }
    }

    /// The text carried by the error, whatever its variant.
    pub open spec fn text(&self) -> Seq<char> {
        match self {
            VNextError::GitError(s) => s@,
            VNextError::RegexError(s) => s@,
            VNextError::GithubError(s) => s@,
            VNextError::VersionError(s) => s@,
            VNextError::Other(s) => s@,
        }
    }
}

} // verus!
