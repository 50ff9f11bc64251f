//! Computes the next semantic version of a project from its commit history.
//!
//! Commit messages are parsed into structured records (conventional-commit
//! grammar or a configurable pattern set), each record is classified into a
//! bump severity (none / patch / minor / major), the history between the last
//! release tag and the current head is aggregated, and the result is turned
//! into a new version number and, on request, a formatted changelog.

pub mod changelog;
pub mod changeset;
pub mod commit;
pub mod conventional;
pub mod custom;
pub mod error;
pub mod factory;
pub mod gitrepo;
pub mod patterns;
pub mod repo;
pub mod severity;
pub mod text;
pub mod version;
pub mod walk;
