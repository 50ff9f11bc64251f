use vnext::changeset::{analyze_commits, enhance_with_github_info, ChangesetSummary};
use vnext::commit::{classify, Commit, CommitAuthor};
use vnext::factory::{ParserFactory, ParserStrategy};
use vnext::severity::Severity;

fn policy() -> (Vec<String>, Vec<String>, Vec<String>) {
    (
        vec!["major".to_string()],
        vec!["feat".to_string(), "minor".to_string()],
        vec!["chore".to_string(), "noop".to_string()],
    )
}

#[test]
fn test_classify_severities() {
    let (major, minor, noop) = policy();
    let cases = [
        ("feat!: x", Severity::Major),
        ("feat: x\n\nBREAKING CHANGE: y", Severity::Major),
        ("major: x", Severity::Major),
        ("feat: x", Severity::Minor),
        ("minor: x", Severity::Minor),
        ("fix: x", Severity::Patch),
        ("unstructured text", Severity::Patch),
        ("chore: x", Severity::Noop),
        ("noop: x", Severity::Noop),
    ];
    for (message, expected) in cases.iter() {
        let commit = Commit::parse("id".to_string(), message.to_string());
        assert_eq!(classify(&commit, &major, &minor, &noop), *expected, "{}", message);
        // Classification is pure: a second run agrees.
        assert_eq!(
            classify(&commit, &major, &minor, &noop),
            classify(&commit, &major, &minor, &noop)
        );
    }
}

#[test]
fn test_aggregate_severity_is_maximum() {
    let (major, minor, noop) = policy();
    let parser = ParserFactory::create(&ParserStrategy::Conventional);

    // The aggregate equals the strongest commit: minor beats patch and noop.
    let entries = vec![
        ("a".to_string(), "chore: tidy".to_string()),
        ("b".to_string(), "fix: repair".to_string()),
        ("c".to_string(), "feat: shiny".to_string()),
    ];
    let (bump, summary) = analyze_commits(&entries, &parser, &major, &minor, &noop);
    assert!(bump.minor && bump.patch && !bump.major);
    assert_eq!(
        (summary.major, summary.minor, summary.patch, summary.noop),
        (0, 1, 1, 1)
    );

    // One breaking commit lifts the aggregate to major.
    let entries = vec![
        ("a".to_string(), "chore: tidy".to_string()),
        ("b".to_string(), "feat!: break".to_string()),
    ];
    let (bump, summary) = analyze_commits(&entries, &parser, &major, &minor, &noop);
    assert!(bump.major);
    assert_eq!((summary.major, summary.noop), (1, 1));

    // An empty set asks for nothing.
    let entries: Vec<(String, String)> = Vec::new();
    let (bump, summary) = analyze_commits(&entries, &parser, &major, &minor, &noop);
    assert!(!bump.major && !bump.minor && !bump.patch);
    assert_eq!(summary.commits.len(), 0);
}

#[test]
fn test_enhance_with_github_info_merges_authors() {
    let (major, minor, noop) = policy();
    let parser = ParserFactory::create(&ParserStrategy::Conventional);
    let entries = vec![
        ("aaa".to_string(), "feat: one".to_string()),
        ("bbb".to_string(), "fix: two".to_string()),
        ("ccc".to_string(), "chore: three".to_string()),
    ];
    let (_bump, mut summary) = analyze_commits(&entries, &parser, &major, &minor, &noop);

    let authors = vec![
        (
            "aaa".to_string(),
            Some(CommitAuthor {
                name: "Ada".to_string(),
                email: "ada@example.com".to_string(),
                username: Some("ada".to_string()),
            }),
        ),
        // A commit whose lookup produced nothing keeps no author.
        ("bbb".to_string(), None),
        // A lookup for an unknown commit is ignored.
        (
            "zzz".to_string(),
            Some(CommitAuthor {
                name: "Ghost".to_string(),
                email: "ghost@example.com".to_string(),
                username: None,
            }),
        ),
    ];
    let counts_before = (summary.major, summary.minor, summary.patch, summary.noop);
    enhance_with_github_info(&mut summary, &authors);

    assert_eq!(summary.commits.len(), 3);
    assert_eq!(
        summary.commits[0].author.as_ref().unwrap().username,
        Some("ada".to_string())
    );
    assert!(summary.commits[1].author.is_none());
    assert!(summary.commits[2].author.is_none());
    // Enrichment never alters the classification.
    assert_eq!(
        (summary.major, summary.minor, summary.patch, summary.noop),
        counts_before
    );
    assert_eq!(summary.commits[0].commit_type, "feat");
}

#[test]
fn test_enhance_tolerates_empty_lookup() {
    let (major, minor, noop) = policy();
    let parser = ParserFactory::create(&ParserStrategy::Conventional);
    let entries = vec![("aaa".to_string(), "feat: one".to_string())];
    let (_bump, mut summary) = analyze_commits(&entries, &parser, &major, &minor, &noop);
    let authors: Vec<(String, Option<CommitAuthor>)> = Vec::new();
    enhance_with_github_info(&mut summary, &authors);
    assert_eq!(summary.commits.len(), 1);
    assert!(summary.commits[0].author.is_none());
    assert_eq!(summary.minor, 1);
}
