use vnext::custom::CustomRegexParser;
use vnext::conventional::ConventionalCommitParser;
use vnext::factory::{Parser, ParserFactory, ParserStrategy};
use vnext::patterns::{
    BREAKING_REGEX_STR, MAJOR_REGEX_STR, MINOR_REGEX_STR, NOOP_REGEX_STR, SCOPE_REGEX_STR,
    TYPE_REGEX_STR,
};

fn default_major_types() -> Vec<String> {
    vec!["major".to_string()]
}

fn default_minor_types() -> Vec<String> {
    vec!["feat".to_string(), "minor".to_string()]
}

fn default_noop_types() -> Vec<String> {
    vec!["chore".to_string(), "noop".to_string()]
}

#[test]
fn test_conventional_commit_parser() {
    let parser = ConventionalCommitParser::new();

    // Major changes
    let major_commit1 =
        parser.parse_commit("test1".to_string(), "feat!: Breaking change".to_string());
    let major_commit2 = parser.parse_commit(
        "test2".to_string(),
        "feat: Add new feature\n\nBREAKING CHANGE: This breaks the old API.".to_string(),
    );
    let major_commit3 =
        parser.parse_commit("test3".to_string(), "major: This is a major change".to_string());

    assert!(major_commit1.is_major_change(&default_major_types()));
    assert!(major_commit2.is_major_change(&default_major_types()));
    assert!(major_commit3.is_major_change(&default_major_types()));

    // Minor changes
    let minor_commit1 =
        parser.parse_commit("test4".to_string(), "feat: Add new feature".to_string());
    let minor_commit2 =
        parser.parse_commit("test5".to_string(), "minor: This is a minor change".to_string());
    let not_minor_commit = parser.parse_commit("test6".to_string(), "fix: Fix a bug".to_string());

    assert!(minor_commit1.is_minor_change(&default_minor_types()));
    assert!(minor_commit2.is_minor_change(&default_minor_types()));
    assert!(!not_minor_commit.is_minor_change(&default_minor_types()));

    // No-op changes
    let noop_commit1 =
        parser.parse_commit("test7".to_string(), "chore: Update dependencies".to_string());
    let noop_commit2 =
        parser.parse_commit("test8".to_string(), "noop: This is a no-op change".to_string());
    let not_noop_commit =
        parser.parse_commit("test9".to_string(), "feat: Add new feature".to_string());

    assert!(noop_commit1.is_noop_change(&default_noop_types()));
    assert!(noop_commit2.is_noop_change(&default_noop_types()));
    assert!(!not_noop_commit.is_noop_change(&default_noop_types()));

    // Breaking changes
    let breaking_commit1 =
        parser.parse_commit("test10".to_string(), "feat!: Breaking change".to_string());
    let breaking_commit2 = parser.parse_commit(
        "test11".to_string(),
        "feat: Add new feature\n\nBREAKING CHANGE: This breaks the old API.".to_string(),
    );
    let not_breaking_commit =
        parser.parse_commit("test12".to_string(), "feat: Add new feature".to_string());

    assert!(breaking_commit1.breaking_change_flag || breaking_commit1.breaking_change_body);
    assert!(breaking_commit2.breaking_change_flag || breaking_commit2.breaking_change_body);
    assert!(
        !not_breaking_commit.breaking_change_flag && !not_breaking_commit.breaking_change_body
    );

    // Parsing a commit
    let commit = parser.parse_commit(
        "abc123".to_string(),
        "feat(ui): Add new button\n\nThis adds a new button to the UI.".to_string(),
    );
    assert_eq!(commit.commit_id, "abc123");
    assert_eq!(commit.commit_type, "feat");
    assert_eq!(commit.scope, Some("ui".to_string()));
    assert_eq!(commit.title, "Add new button");
    assert_eq!(commit.body, Some("This adds a new button to the UI.".to_string()));
    assert!(!commit.breaking_change_flag && !commit.breaking_change_body);
}

#[test]
fn test_custom_regex_parser() {
    let parser = CustomRegexParser::default();

    // Major changes
    let major_commit1 =
        parser.parse_commit("test1".to_string(), "major: This is a major change".to_string());
    let major_commit2 = parser.parse_commit(
        "test2".to_string(),
        "feat: Add new feature\n\nBREAKING CHANGE: This breaks the old API.".to_string(),
    );
    let not_major_commit =
        parser.parse_commit("test3".to_string(), "feat: Add new feature".to_string());

    assert!(major_commit1.is_major_change(&default_major_types()));
    assert!(major_commit2.is_major_change(&default_major_types()));
    assert!(!not_major_commit.is_major_change(&default_major_types()));

    // Minor changes
    let minor_commit1 =
        parser.parse_commit("test4".to_string(), "feat: Add new feature".to_string());
    let minor_commit2 =
        parser.parse_commit("test5".to_string(), "minor: This is a minor change".to_string());
    let not_minor_commit = parser.parse_commit("test6".to_string(), "fix: Fix a bug".to_string());

    assert!(minor_commit1.is_minor_change(&default_minor_types()));
    assert!(minor_commit2.is_minor_change(&default_minor_types()));
    assert!(!not_minor_commit.is_minor_change(&default_minor_types()));

    // No-op changes
    let noop_commit1 =
        parser.parse_commit("test7".to_string(), "chore: Update dependencies".to_string());
    let noop_commit2 =
        parser.parse_commit("test8".to_string(), "noop: This is a no-op change".to_string());
    let not_noop_commit =
        parser.parse_commit("test9".to_string(), "feat: Add new feature".to_string());

    assert!(noop_commit1.is_noop_change(&default_noop_types()));
    assert!(noop_commit2.is_noop_change(&default_noop_types()));
    assert!(!not_noop_commit.is_noop_change(&default_noop_types()));

    // Breaking changes
    let breaking_commit = parser.parse_commit(
        "test10".to_string(),
        "feat: Add new feature\n\nBREAKING CHANGE: This breaks the old API.".to_string(),
    );
    let not_breaking_commit =
        parser.parse_commit("test11".to_string(), "feat: Add new feature".to_string());

    assert!(breaking_commit.breaking_change_flag);
    assert!(!not_breaking_commit.breaking_change_flag);

    // Parsing a commit
    let commit = parser.parse_commit(
        "abc123".to_string(),
        "feat(ui): Add new button\n\nThis adds a new button to the UI.".to_string(),
    );
    assert_eq!(commit.commit_id, "abc123");
    assert_eq!(commit.commit_type, "feat");
    assert_eq!(commit.scope, Some("ui".to_string()));
    assert_eq!(commit.title, "Add new button");
    assert!(commit.body.is_some());

    // Custom patterns
    let custom_parser = CustomRegexParser::new(
        r"(?m)^custom-major:.*",
        r"(?m)^custom-minor:.*",
        r"(?m)^custom-noop:.*",
        r"(?m)^custom-breaking:.*",
        r"^custom-([\w-]+):",
        r"^custom-[\w-]+\((.*)\):",
    )
    .unwrap();

    let custom_major = custom_parser
        .parse_commit("test12".to_string(), "custom-major: This is a major change".to_string());
    let not_custom_major = custom_parser
        .parse_commit("test13".to_string(), "major: This is a major change".to_string());

    let custom_minor = custom_parser
        .parse_commit("test14".to_string(), "custom-minor: This is a minor change".to_string());
    let not_custom_minor = custom_parser
        .parse_commit("test15".to_string(), "minor: This is a minor change".to_string());

    let custom_noop = custom_parser
        .parse_commit("test16".to_string(), "custom-noop: This is a no-op change".to_string());
    let not_custom_noop = custom_parser
        .parse_commit("test17".to_string(), "noop: This is a no-op change".to_string());

    let custom_breaking = custom_parser.parse_commit(
        "test18".to_string(),
        "custom-breaking: This is a breaking change".to_string(),
    );
    let not_custom_breaking = custom_parser.parse_commit(
        "test19".to_string(),
        "BREAKING CHANGE: This is a breaking change".to_string(),
    );

    assert!(custom_major.is_major_change(&default_major_types()));
    assert!(!not_custom_major.is_major_change(&default_major_types()));

    assert!(custom_minor.is_minor_change(&default_minor_types()));
    assert!(!not_custom_minor.is_minor_change(&default_minor_types()));

    assert!(custom_noop.is_noop_change(&default_noop_types()));
    assert!(!not_custom_noop.is_noop_change(&default_noop_types()));

    assert!(custom_breaking.breaking_change_flag);
    assert!(!not_custom_breaking.breaking_change_flag);
}

#[test]
fn test_parser_factory() {
    // Conventional parser
    let conventional_parser = ParserFactory::create(&ParserStrategy::Conventional);
    assert_eq!(conventional_parser.name(), "conventional");

    // Custom regex parser
    let custom_parser = ParserFactory::create(&ParserStrategy::CustomRegex {
        major_pattern: MAJOR_REGEX_STR.to_string(),
        minor_pattern: MINOR_REGEX_STR.to_string(),
        noop_pattern: NOOP_REGEX_STR.to_string(),
        breaking_pattern: BREAKING_REGEX_STR.to_string(),
        type_pattern: TYPE_REGEX_STR.to_string(),
        scope_pattern: SCOPE_REGEX_STR.to_string(),
    });
    assert_eq!(custom_parser.name(), "custom-regex");

    // Invalid patterns fall back to the defaults
    let invalid_parser = ParserFactory::create(&ParserStrategy::CustomRegex {
        major_pattern: "[invalid regex".to_string(),
        minor_pattern: MINOR_REGEX_STR.to_string(),
        noop_pattern: NOOP_REGEX_STR.to_string(),
        breaking_pattern: BREAKING_REGEX_STR.to_string(),
        type_pattern: TYPE_REGEX_STR.to_string(),
        scope_pattern: SCOPE_REGEX_STR.to_string(),
    });
    assert_eq!(invalid_parser.name(), "custom-regex");

    // Parsing with different parsers
    let commit_message = "feat: Add new feature";

    let conv_commit =
        conventional_parser.parse_commit("test20".to_string(), commit_message.to_string());
    let custom_commit =
        custom_parser.parse_commit("test21".to_string(), commit_message.to_string());

    assert!(conv_commit.is_minor_change(&default_minor_types()));
    assert!(custom_commit.is_minor_change(&default_minor_types()));
}

#[test]
fn test_integration_with_version_calculation() {
    let conventional_parser: Parser = ParserFactory::create(&ParserStrategy::Conventional);
    let custom_parser: Parser = ParserFactory::create(&ParserStrategy::CustomRegex {
        major_pattern: MAJOR_REGEX_STR.to_string(),
        minor_pattern: MINOR_REGEX_STR.to_string(),
        noop_pattern: NOOP_REGEX_STR.to_string(),
        breaking_pattern: BREAKING_REGEX_STR.to_string(),
        type_pattern: TYPE_REGEX_STR.to_string(),
        scope_pattern: SCOPE_REGEX_STR.to_string(),
    });

    // A major change
    let major_message = "feat!: Breaking change";
    let conv_major =
        conventional_parser.parse_commit("test22".to_string(), major_message.to_string());
    let custom_major = custom_parser.parse_commit("test23".to_string(), major_message.to_string());

    assert!(conv_major.is_major_change(&default_major_types()));
    // The custom strategy does not read `!` as breaking.
    assert!(!custom_major.is_major_change(&default_major_types()));

    // A minor change
    let minor_message = "feat: Add new feature";
    let conv_minor =
        conventional_parser.parse_commit("test24".to_string(), minor_message.to_string());
    let custom_minor = custom_parser.parse_commit("test25".to_string(), minor_message.to_string());

    assert!(conv_minor.is_minor_change(&default_minor_types()));
    assert!(custom_minor.is_minor_change(&default_minor_types()));

    // A patch change
    let patch_message = "fix: Fix a bug";
    let conv_patch =
        conventional_parser.parse_commit("test26".to_string(), patch_message.to_string());
    let custom_patch = custom_parser.parse_commit("test27".to_string(), patch_message.to_string());

    assert!(!conv_patch.is_major_change(&default_major_types()));
    assert!(!conv_patch.is_minor_change(&default_minor_types()));
    assert!(!conv_patch.is_noop_change(&default_noop_types()));

    assert!(!custom_patch.is_major_change(&default_major_types()));
    assert!(!custom_patch.is_minor_change(&default_minor_types()));
    assert!(!custom_patch.is_noop_change(&default_noop_types()));

    // A no-op change
    let noop_message = "chore: Update dependencies";
    let conv_noop =
        conventional_parser.parse_commit("test28".to_string(), noop_message.to_string());
    let custom_noop = custom_parser.parse_commit("test29".to_string(), noop_message.to_string());

    assert!(conv_noop.is_noop_change(&default_noop_types()));
    assert!(custom_noop.is_noop_change(&default_noop_types()));
}
