use vnext::commit::Commit;
use vnext::conventional::parse_conventional_commit;

fn major_types() -> Vec<String> {
    vec!["major".to_string()]
}

fn minor_types() -> Vec<String> {
    vec!["feat".to_string(), "minor".to_string()]
}

fn noop_types() -> Vec<String> {
    vec!["chore".to_string(), "noop".to_string()]
}

#[test]
fn test_parse_conventional_commit() {
    // Basic commit with type and title
    let message = "feat: Add new feature";
    let parsed = parse_conventional_commit(message).unwrap();
    assert_eq!(parsed.commit_type, "feat");
    assert_eq!(parsed.title, "Add new feature");
    assert!(parsed.scope.is_none());
    assert!(!parsed.breaking_change_flag);
    assert!(parsed.body.is_none());
    assert!(!parsed.breaking_change_body);

    // Commit with scope
    let message = "fix(ui): Fix button alignment";
    let parsed = parse_conventional_commit(message).unwrap();
    assert_eq!(parsed.commit_type, "fix");
    assert_eq!(parsed.title, "Fix button alignment");
    assert_eq!(parsed.scope, Some("ui".to_string()));
    assert!(!parsed.breaking_change_flag);
    assert!(parsed.body.is_none());
    assert!(!parsed.breaking_change_body);

    // Commit with breaking change flag
    let message = "feat!: Breaking change";
    let parsed = parse_conventional_commit(message).unwrap();
    assert_eq!(parsed.commit_type, "feat");
    assert_eq!(parsed.title, "Breaking change");
    assert!(parsed.scope.is_none());
    assert!(parsed.breaking_change_flag);
    assert!(parsed.body.is_none());
    assert!(!parsed.breaking_change_body);

    // Commit with scope and breaking change flag
    let message = "feat(api)!: Breaking API change";
    let parsed = parse_conventional_commit(message).unwrap();
    assert_eq!(parsed.commit_type, "feat");
    assert_eq!(parsed.title, "Breaking API change");
    assert_eq!(parsed.scope, Some("api".to_string()));
    assert!(parsed.breaking_change_flag);
    assert!(parsed.body.is_none());
    assert!(!parsed.breaking_change_body);

    // Commit with body
    let message = "feat: Add new feature\n\nThis is a detailed description of the feature.";
    let parsed = parse_conventional_commit(message).unwrap();
    assert_eq!(parsed.commit_type, "feat");
    assert_eq!(parsed.title, "Add new feature");
    assert!(parsed.scope.is_none());
    assert!(!parsed.breaking_change_flag);
    assert_eq!(
        parsed.body,
        Some("This is a detailed description of the feature.".to_string())
    );
    assert!(!parsed.breaking_change_body);

    // Breaking change at the start of the first line of the body
    let message = "feat: Add new feature\n\nBREAKING CHANGE: This breaks the old API.";
    let parsed = parse_conventional_commit(message).unwrap();
    assert_eq!(parsed.commit_type, "feat");
    assert_eq!(parsed.title, "Add new feature");
    assert!(parsed.scope.is_none());
    assert!(!parsed.breaking_change_flag);
    assert_eq!(
        parsed.body,
        Some("BREAKING CHANGE: This breaks the old API.".to_string())
    );
    assert!(parsed.breaking_change_body);

    // Breaking change not at the start of the first line of the body
    let message =
        "feat: Add new feature\n\nThis is the first line.\nBREAKING CHANGE: This is not at the start.";
    let parsed = parse_conventional_commit(message).unwrap();
    assert_eq!(parsed.commit_type, "feat");
    assert_eq!(parsed.title, "Add new feature");
    assert!(parsed.scope.is_none());
    assert!(!parsed.breaking_change_flag);
    assert_eq!(
        parsed.body,
        Some("This is the first line.\nBREAKING CHANGE: This is not at the start.".to_string())
    );
    assert!(!parsed.breaking_change_body);

    // Breaking change in the middle of a line
    let message = "feat: Add new feature\n\nThis line has BREAKING CHANGE: in the middle.";
    let parsed = parse_conventional_commit(message).unwrap();
    assert_eq!(parsed.commit_type, "feat");
    assert_eq!(parsed.title, "Add new feature");
    assert!(parsed.scope.is_none());
    assert!(!parsed.breaking_change_flag);
    assert_eq!(
        parsed.body,
        Some("This line has BREAKING CHANGE: in the middle.".to_string())
    );
    assert!(!parsed.breaking_change_body);
}

#[test]
fn test_commit_struct() {
    // Basic commit parsing
    let commit = Commit::parse("abc123".to_string(), "feat: Add new feature".to_string());
    assert_eq!(commit.commit_id, "abc123");
    assert_eq!(commit.raw_message, "feat: Add new feature");
    assert_eq!(commit.commit_type, "feat");
    assert!(commit.scope.is_none());
    assert!(!commit.breaking_change_flag);
    assert_eq!(commit.title, "Add new feature");
    assert!(commit.body.is_none());
    assert!(!commit.breaking_change_body);
    assert!(commit.author.is_none());

    // is_major_change
    let commit = Commit::parse("abc123".to_string(), "feat!: Breaking change".to_string());
    assert!(commit.is_major_change(&major_types()));

    let commit = Commit::parse(
        "abc123".to_string(),
        "feat: Add new feature\n\nBREAKING CHANGE: This breaks the old API.".to_string(),
    );
    assert!(commit.is_major_change(&major_types()));

    // is_minor_change
    let commit = Commit::parse("abc123".to_string(), "feat: Add new feature".to_string());
    assert!(commit.is_minor_change(&minor_types()));

    // is_patch_change
    let commit = Commit::parse("abc123".to_string(), "fix: Fix bug".to_string());
    assert!(commit.is_patch_change(&major_types(), &minor_types(), &noop_types()));

    // is_noop_change
    let commit = Commit::parse("abc123".to_string(), "chore: Update dependencies".to_string());
    assert!(commit.is_noop_change(&noop_types()));
}

#[test]
fn test_unicode_type_token() {
    // A type token holding a non-ASCII word character parses like any
    // other, and its breaking marker escalates as usual.
    let parsed = parse_conventional_commit("f\u{e9}at: accented feature").unwrap();
    assert_eq!(parsed.commit_type, "f\u{e9}at");
    assert_eq!(parsed.title, "accented feature");
    assert!(!parsed.breaking_change_flag);

    let commit = Commit::parse(
        "abc123".to_string(),
        "f\u{e9}at!: breaking\n\nBREAKING CHANGE: all change".to_string(),
    );
    assert_eq!(commit.commit_type, "f\u{e9}at");
    assert!(commit.breaking_change_flag);
    assert!(commit.breaking_change_body);
    assert!(commit.is_major_change(&major_types()));

    // A header whose token starts with a non-word character still falls
    // outside the grammar.
    let unparsed = parse_conventional_commit("\u{2605}: star");
    assert!(unparsed.is_none());
}

#[test]
fn test_unparsed_message_falls_back_to_first_line() {
    let commit = Commit::parse(
        "abc123".to_string(),
        "just some text\nwith a second line".to_string(),
    );
    assert_eq!(commit.commit_type, "");
    assert_eq!(commit.title, "just some text");
    assert!(commit.body.is_none());
    assert!(!commit.breaking_change_flag);
    assert!(!commit.breaking_change_body);
    // An unclassified commit is conservatively a patch.
    assert!(commit.is_patch_change(&major_types(), &minor_types(), &noop_types()));
}
