//! Versions: parsing release tags, ordering, and the bump arithmetic.

use vstd::prelude::*;

use crate::error::VNextError;
use crate::severity::VersionBump;
use crate::text::{dec_rep, decimal_string};

verus! {

/// A semantic version, reduced to its three numeric components.
///
/// Pre-release and build metadata are never retained here: recomputed
/// versions always clear them, so the model is just the triple.
#[derive(Clone, Copy, Debug, PartialEq, Eq, Structural)]
pub struct Version {
    /// Major component.
    pub major: u64,
    /// Minor component.
    pub minor: u64,
    /// Patch component.
    pub patch: u64,
}

/// What `semver` parses a version string into, reduced to the numeric triple:
/// `None` when the string is not a valid semantic version.  The result is a
/// function of the characters alone.
pub uninterp spec fn semver_triple_of(s: Seq<char>) -> Option<(u64, u64, u64)>;

/// Relies on `semver::Version::parse`: the outcome depends only on the text,
/// and a successful parse yields the numeric major/minor/patch components
/// (any pre-release or build metadata is dropped here).
#[verifier::external_body]
fn semver_parse(s: &str) -> (r: Option<(u64, u64, u64)>)
    ensures
        r == semver_triple_of(s@),
{
    semver::Version::parse(s).ok().map(|v| (v.major, v.minor, v.patch))
}

/// `s` with every leading `'v'` removed.
pub open spec fn strip_leading_v(s: Seq<char>) -> Seq<char>
    decreases s.len(),
{
    if s.len() > 0 && s[0] == 'v' {
        strip_leading_v(s.drop_first())
    } else {
        s
    }
}

/// What [`parse_version`] yields for a tag: the tag without its leading
/// `'v'` markers, read as a semantic version.
pub open spec fn parse_version_spec(tag: Seq<char>) -> Option<(u64, u64, u64)> {
    semver_triple_of(strip_leading_v(tag))
}

/// A tag and the same tag behind one more leading `'v'` parse to the same
/// version.
pub proof fn lemma_leading_v_irrelevant(tag: Seq<char>)
    ensures
        parse_version_spec(seq!['v'] + tag) == parse_version_spec(tag),
{
    let e = seq!['v'] + tag;
    assert(e[0] == 'v');
    assert(e.drop_first() =~= tag);
}

/// If the first `k` characters are `'v'` and character `k` (when present) is
/// not, stripping keeps exactly `s[k..]`.
proof fn lemma_strip_leading_v_at(s: Seq<char>, k: int)
    requires
        0 <= k <= s.len(),
        forall|j: int| 0 <= j < k ==> s[j] == 'v',
        k < s.len() ==> s[k] != 'v',
    ensures
        strip_leading_v(s) == s.subrange(k, s.len() as int),
    decreases s.len(),
{
    if k == 0 {
        if s.len() > 0 && s[0] == 'v' {
            assert(false);
        }
        assert(s.subrange(0, s.len() as int) =~= s);
    } else {
        lemma_strip_leading_v_at(s.drop_first(), k - 1);
        assert(s.drop_first().subrange(k - 1, s.drop_first().len() as int) =~= s.subrange(
            k,
            s.len() as int,
        ));
    }
}

impl Version {
    /// The version `major.minor.patch`.
    pub fn new(major: u64, minor: u64, patch: u64) -> (v: Version)
        ensures
            v == (Version { major, minor, patch }),
    {
        Version { major, minor, patch }
    }

    /// The all-zero version, the base used when no release exists yet.
    pub fn zero() -> (v: Version)
        ensures
            v == (Version { major: 0u64, minor: 0u64, patch: 0u64 }),
    {
        Version { major: 0, minor: 0, patch: 0 }
    }

    /// Strict component-wise (lexicographic) order on versions.
    pub open spec fn lt_spec(self, other: Version) -> bool {
        self.major < other.major || (self.major == other.major && (self.minor < other.minor || (
        self.minor == other.minor && self.patch < other.patch)))
    }

    /// Is this version strictly below `other` in the component-wise order?
    pub fn lt(&self, other: &Version) -> (r: bool)
        ensures
            r == self.lt_spec(*other),
    {
        self.major < other.major || (self.major == other.major && (self.minor < other.minor || (
        self.minor == other.minor && self.patch < other.patch)))
    }

    /// Is any component non-zero?
    pub fn is_nonzero(&self) -> (r: bool)
        ensures
            r == (self.major > 0 || self.minor > 0 || self.patch > 0),
    {
        self.major > 0 || self.minor > 0 || self.patch > 0
    }

    /// The decimal rendering of this version.
    pub open spec fn text_spec(self) -> Seq<char> {
        dec_rep(self.major as int) + seq!['.'] + dec_rep(self.minor as int) + seq!['.'] + dec_rep(
            self.patch as int,
        )
    }

    /// Writes the version as `"major.minor.patch"`.
    pub fn text(&self) -> (s: String)
        ensures
            s@ == self.text_spec(),
    {
        proof {
            reveal_strlit(".");
        }
        let mut s = decimal_string(self.major);
        s.append(".");
        let mi = decimal_string(self.minor);
        s.append(mi.as_str());
        s.append(".");
        let pa = decimal_string(self.patch);
        s.append(pa.as_str());
        assert(s@ =~= self.text_spec());
        s
    }
}

/// Parses a release tag as a semantic version, tolerating leading `'v'`
/// markers.
///
/// Returns `Ok` exactly on the tags whose stripped text `semver` accepts,
/// with the numeric components of that parse; every other tag yields
/// `Err(VersionError)`.
pub fn parse_version(tag: &str) -> (r: Result<Version, VNextError>)
    ensures
        match r {
            Ok(v) => parse_version_spec(tag@) == Some((v.major, v.minor, v.patch)),
            Err(e) => parse_version_spec(tag@) is None && e is VersionError,
        },
{
    let chars = crate::text::str_to_chars(tag);
    let mut k: usize = 0;
    while k < chars.len() && chars[k] == 'v'
        invariant
            0 <= k <= chars@.len(),
            chars@ == tag@,
            forall|j: int| 0 <= j < k ==> chars@[j] == 'v',
        decreases chars@.len() - k,
    {
        k += 1;
    }
    proof {
        lemma_strip_leading_v_at(tag@, k as int);
    }
    let stripped_chars = crate::text::subvec(&chars, k, chars.len());
    let stripped = crate::text::string_from_chars(&stripped_chars);
    match semver_parse(stripped.as_str()) {
        Some((major, minor, patch)) => Ok(Version { major, minor, patch }),
        None => Err(
            VNextError::VersionError(String::from_str("tag is not a semantic version")),
        ),
    }
}

/// The next version after `current` under `bump`: the strongest set flag
/// bumps its component and resets the smaller ones; no flag leaves the
/// version unchanged.
pub open spec fn next_version_spec(current: Version, bump: VersionBump) -> Version
    recommends
        next_version_fits(current, bump),
{
    if bump.major {
        Version { major: (current.major + 1) as u64, minor: 0u64, patch: 0u64 }
    } else if bump.minor {
        Version { major: current.major, minor: (current.minor + 1) as u64, patch: 0u64 }
    } else if bump.patch {
        Version { major: current.major, minor: current.minor, patch: (current.patch + 1) as u64 }
    } else {
        current
    }
}

/// The bumped component stays within its machine width.
pub open spec fn next_version_fits(current: Version, bump: VersionBump) -> bool {
    if bump.major {
        current.major < u64::MAX
    } else if bump.minor {
        current.minor < u64::MAX
    } else if bump.patch {
        current.patch < u64::MAX
    } else {
        true
    }
}

/// Computes the version that `bump` asks for on top of `current`; see
/// [`next_version_spec`].  Any pre-release or build metadata is already gone:
/// a [`Version`] never carries it.
pub fn calculate_next_version(current: &Version, bump: &VersionBump) -> (next: Version)
    requires
        next_version_fits(*current, *bump),
    ensures
        next == next_version_spec(*current, *bump),
{
    if bump.major {
        Version { major: current.major + 1, minor: 0, patch: 0 }
    } else if bump.minor {
        Version { major: current.major, minor: current.minor + 1, patch: 0 }
    } else if bump.patch {
        Version { major: current.major, minor: current.minor, patch: current.patch + 1 }
    } else {
        *current
    }
}

/// The result of [`next_version_spec`] depends on nothing but its arguments:
/// two computations over the same base and flags agree.
pub proof fn lemma_next_version_pure(current: Version, bump: VersionBump, r1: Version, r2: Version)
    requires
        r1 == next_version_spec(current, bump),
        r2 == next_version_spec(current, bump),
    ensures
        r1 == r2,
{
}

} // verus!
