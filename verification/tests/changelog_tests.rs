use vnext::changelog::{fallback_output, format_changelog, format_commit_body, output_text};
use vnext::changeset::{analyze_commits, ChangesetSummary};
use vnext::commit::{Commit, CommitAuthor};
use vnext::factory::{ParserFactory, ParserStrategy};
use vnext::repo::RepoInfo;
use vnext::version::{calculate_next_version, Version};

fn authored(id: &str, message: &str, author: Option<CommitAuthor>) -> Commit {
    let mut commit = Commit::parse(id.to_string(), message.to_string());
    commit.author = author;
    commit
}

#[test]
fn test_changelog_with_author_info() {
    // A ChangesetSummary with author information
    let mut summary = ChangesetSummary::new();

    // A commit with author information
    let author1 = CommitAuthor {
        name: "John Doe".to_string(),
        email: "john@example.com".to_string(),
        username: Some("johndoe".to_string()),
    };
    summary.commits.push(authored("abc123", "feat: Add new feature", Some(author1)));

    // A commit with author information but no username
    let author2 = CommitAuthor {
        name: "Jane Smith".to_string(),
        email: "jane@example.com".to_string(),
        username: None,
    };
    summary.commits.push(authored("def456", "fix: Fix a bug", Some(author2)));

    // A commit without author information
    summary.commits.push(authored("ghi789", "chore: Update dependencies", None));

    // Format the changelog
    let version = Version::new(1, 0, 0);
    let current_version = Version::new(0, 9, 0);
    let repo_info = RepoInfo::new(); // Empty repo info for tests
    let changelog = format_changelog(&summary, &version, false, &current_version, &repo_info);

    // The changelog contains author information
    assert!(changelog.contains("### What's changed in v1.0.0"));
    assert!(changelog.contains("* feat: Add new feature (by @johndoe)"));
    assert!(changelog.contains("* fix: Fix a bug (by Jane Smith)"));
    assert!(changelog.contains("* chore: Update dependencies"));

    // The order of commits (oldest first)
    let feat_pos = changelog.find("feat: Add new feature").unwrap();
    let fix_pos = changelog.find("fix: Fix a bug").unwrap();
    let chore_pos = changelog.find("chore: Update dependencies").unwrap();

    assert!(
        chore_pos < fix_pos,
        "Commits should be in chronological order (oldest first)"
    );
    assert!(
        fix_pos < feat_pos,
        "Commits should be in chronological order (oldest first)"
    );
}

#[test]
fn test_github_detection_behavior() {
    // A test summary with commits
    let mut summary = ChangesetSummary::new();
    summary.commits.push(authored("abc123", "feat: Add feature", None));

    // A test author
    let author = CommitAuthor {
        name: "Test User".to_string(),
        email: "test@example.com".to_string(),
        username: Some("testuser".to_string()),
    };

    // With GitHub author information
    let mut summary_with_github = ChangesetSummary::new();
    summary_with_github.commits.push(authored("abc123", "feat: Add feature", Some(author.clone())));

    let current_version = Version::new(0, 9, 0);
    let repo_info = RepoInfo::new();
    let changelog_with_github = format_changelog(
        &summary_with_github,
        &Version::new(1, 0, 0),
        false,
        &current_version,
        &repo_info,
    );
    assert!(
        changelog_with_github.contains("(by @testuser)"),
        "Changelog should include GitHub username when GitHub author information is available"
    );

    // Without GitHub author information
    let current_version = Version::new(0, 9, 0);
    let repo_info = RepoInfo::new();
    let changelog_without_github = format_changelog(
        &summary,
        &Version::new(1, 0, 0),
        false,
        &current_version,
        &repo_info,
    );
    assert!(
        !changelog_without_github.contains("(by @testuser)"),
        "Changelog should not include GitHub username when GitHub author information is not available"
    );
}

#[test]
fn test_breaking_escalation_changelog() {
    // A "feat" commit whose body opens with the breaking-change footer
    // escalates an 0.1.1 base to 1.0.0, and the entry renders with the
    // footer indented beneath the bullet.
    let entries = vec![(
        "c1".to_string(),
        "feat: New login flow\n\nBREAKING CHANGE: Tokens are invalidated.".to_string(),
    )];
    let parser = ParserFactory::create(&ParserStrategy::Conventional);
    let major = vec!["major".to_string()];
    let minor = vec!["feat".to_string(), "minor".to_string()];
    let noop = vec!["chore".to_string(), "noop".to_string()];
    let (bump, summary) = analyze_commits(&entries, &parser, &major, &minor, &noop);
    assert!(bump.major);
    assert_eq!(summary.major, 1);

    let base = Version::new(0, 1, 1);
    let next = calculate_next_version(&base, &bump);
    assert_eq!(next, Version::new(1, 0, 0));

    let changelog = format_changelog(&summary, &next, false, &base, &RepoInfo::new());
    assert!(changelog.starts_with(
        "### What's changed in v1.0.0\n\n* feat: New login flow\n\n  BREAKING CHANGE: Tokens are invalidated."
    ));
}

#[test]
fn test_header_scaling_toggle() {
    // With scaling on, the top three heading levels are demoted by three.
    let body = "# Title\n## Sub\n### Deep\n#### Deeper\nplain";
    let scaled = format_commit_body(body, false);
    assert_eq!(
        scaled,
        "  #### Title\n  ##### Sub\n  ###### Deep\n  #### Deeper\n  plain"
    );

    // With scaling off, the lines pass through (indented) unchanged.
    let plain = format_commit_body(body, true);
    assert_eq!(plain, "  # Title\n  ## Sub\n  ### Deep\n  #### Deeper\n  plain");

    // The single-line cases of each mode.
    assert_eq!(format_commit_body("# Title", false), "  #### Title");
    assert_eq!(format_commit_body("# Title", true), "  # Title");
}

#[test]
fn test_empty_changeset_renders_no_changes() {
    let summary = ChangesetSummary::new();
    let changelog = format_changelog(
        &summary,
        &Version::new(0, 1, 0),
        false,
        &Version::zero(),
        &RepoInfo::new(),
    );
    assert_eq!(changelog, "### What's changed in v0.1.0\n\n* No changes\n");
}

#[test]
fn test_comparison_link() {
    // A github.com repository with a non-zero current version gets a
    // comparison link; the all-zero current version suppresses it.
    let mut repo_info = RepoInfo::new();
    repo_info.owner = "owner".to_string();
    repo_info.name = "repo".to_string();
    repo_info.is_github_repo = true;

    let mut summary = ChangesetSummary::new();
    summary.commits.push(authored("abc", "fix: small", None));

    let next = Version::new(0, 2, 1);
    let current = Version::new(0, 2, 0);
    let changelog = format_changelog(&summary, &next, false, &current, &repo_info);
    assert!(changelog.ends_with(
        "See full diff: [v0.2.0...v0.2.1](https://github.com/owner/repo/compare/v0.2.0...v0.2.1)"
    ));

    let from_zero = format_changelog(&summary, &next, false, &Version::zero(), &repo_info);
    assert!(!from_zero.contains("See full diff"));
}

#[test]
fn test_fallback_output_text() {
    // Without a repository the run reports the all-zero version, or the
    // fixed no-changes changelog in changelog mode.
    assert_eq!(fallback_output(false), "0.0.0");
    assert_eq!(
        fallback_output(true),
        "## What's changed in 0.0.0\n\n* No changes\n\n---"
    );
}

#[test]
fn test_output_text_modes() {
    let summary = ChangesetSummary::new();
    let next = Version::new(2, 3, 4);
    let bare = output_text(&next, &summary, false, false, &Version::zero(), &RepoInfo::new());
    assert_eq!(bare, "2.3.4");
    let full = output_text(&next, &summary, true, false, &Version::zero(), &RepoInfo::new());
    assert_eq!(full, "### What's changed in v2.3.4\n\n* No changes\n");
}
