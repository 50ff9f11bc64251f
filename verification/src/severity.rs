//! Bump severities and the flags that summarise them.

use vstd::prelude::*;

verus! {

/// How strongly a set of commits asks for a version bump.
///
/// The four values are totally ordered by impact: `Noop < Patch < Minor <
/// Major`.  Combining two severities yields the larger one.
#[derive(Clone, Copy, Debug, PartialEq, Eq, Structural)]
pub enum Severity {
    /// No version change.
    Noop,
    /// Patch-level change.
    Patch,
    /// Minor-level change.
    Minor,
    /// Major (breaking) change.
    Major,
}

/// Numeric rank of a severity, for comparisons: `Noop` is 0, `Major` is 3.
pub open spec fn severity_rank(s: Severity) -> int {
    match s {
        Severity::Noop => 0,
        Severity::Patch => 1,
        Severity::Minor => 2,
        Severity::Major => 3,
    }
}

/// The larger of two severities.
pub open spec fn severity_max(a: Severity, b: Severity) -> Severity {
    if severity_rank(a) >= severity_rank(b) {
        a
    } else {
        b
    }
}

/// The largest severity in a sequence; `Noop` when the sequence is empty.
pub open spec fn max_severity_of(s: Seq<Severity>) -> Severity
    decreases s.len(),
{
    if s.len() == 0 {
        Severity::Noop
    } else {
        severity_max(s[0], max_severity_of(s.drop_first()))
    }
}

/// Which bump the aggregated history asks for, one flag per level.
///
/// The flags are cumulative observations, not exclusive: a history that holds
/// both a minor and a patch commit sets both `minor` and `patch`, and the
/// arithmetic applies the strongest set flag.
#[derive(Clone, Copy, Debug, PartialEq, Eq, Structural)]
pub struct VersionBump {
    /// Some commit asked for a major bump.
    pub major: bool,
    /// Some commit asked for a minor bump.
    pub minor: bool,
    /// Some commit asked for a patch bump.
    pub patch: bool,
}

/// The severity that a set of bump flags encodes: the strongest set flag.
pub open spec fn bump_severity(b: VersionBump) -> Severity {
    if b.major {
        Severity::Major
    } else if b.minor {
        Severity::Minor
    } else if b.patch {
        Severity::Patch
    } else {
        Severity::Noop
    }
}

/// The maximum of a severity sequence is no smaller than each element, and is
/// one of the elements when the sequence is not empty.
pub proof fn lemma_max_severity_bounds(s: Seq<Severity>)
    ensures
        forall|i: int|
            0 <= i < s.len() ==> severity_rank(s[i]) <= severity_rank(max_severity_of(s)),
        s.len() > 0 ==> exists|i: int| 0 <= i < s.len() && s[i] == max_severity_of(s),
    decreases s.len(),
{
    if s.len() > 0 {
        lemma_max_severity_bounds(s.drop_first());
        let m = max_severity_of(s);
        assert forall|i: int| 0 <= i < s.len() implies severity_rank(s[i]) <= severity_rank(m) by {
            if i > 0 {
                assert(s.drop_first()[i - 1] == s[i]);
            }
        }
        if m != s[0] {
            let j = choose|j: int|
                0 <= j < s.drop_first().len() && s.drop_first()[j] == max_severity_of(
                    s.drop_first(),
                );
            assert(s[j + 1] == m);
        }
    }
}

/// A set of bump flags encodes the maximum severity of a sequence exactly
/// when each flag reports whether its level occurs in the sequence.
pub proof fn lemma_flags_encode_max(s: Seq<Severity>, b: VersionBump)
    requires
        b.major == (exists|i: int| 0 <= i < s.len() && s[i] == Severity::Major),
        b.minor == (exists|i: int| 0 <= i < s.len() && s[i] == Severity::Minor),
        b.patch == (exists|i: int| 0 <= i < s.len() && s[i] == Severity::Patch),
    ensures
        bump_severity(b) == max_severity_of(s),
{
    lemma_max_severity_bounds(s);
    if s.len() == 0 {
    } else {
        let m = max_severity_of(s);
        let w = choose|i: int| 0 <= i < s.len() && s[i] == m;
        match m {
            Severity::Major => {}
            Severity::Minor => {}
            Severity::Patch => {}
            Severity::Noop => {}
        }
    }
}

} // verus!
