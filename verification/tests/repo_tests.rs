use vnext::changeset::ChangesetSummary;
use vnext::commit::Commit;
use vnext::repo::{extract_repo_info, RepoInfo};

#[test]
fn test_extract_repo_info() {
    // SSH URL format
    let ssh_url = "git@github.com:owner/repo.git";
    let result = extract_repo_info(ssh_url);
    assert!(result.is_some(), "Should extract info from SSH URL");
    if let Some((host, owner, name)) = result {
        assert_eq!(host, "github.com");
        assert_eq!(owner, "owner");
        assert_eq!(name, "repo");
    }

    // HTTPS URL format
    let https_url = "https://github.com/owner/repo.git";
    let result = extract_repo_info(https_url);
    assert!(result.is_some(), "Should extract info from HTTPS URL");
    if let Some((host, owner, name)) = result {
        assert_eq!(host, "github.com");
        assert_eq!(owner, "owner");
        assert_eq!(name, "repo");
    }

    // URL without .git suffix
    let no_git_url = "https://github.com/owner/repo";
    let result = extract_repo_info(no_git_url);
    assert!(result.is_some(), "Should extract info from URL without .git suffix");
    if let Some((host, owner, name)) = result {
        assert_eq!(host, "github.com");
        assert_eq!(owner, "owner");
        assert_eq!(name, "repo");
    }

    // Non-GitHub URL
    let non_github_url = "https://gitlab.com/owner/repo.git";
    let result = extract_repo_info(non_github_url);
    assert!(result.is_some(), "Should extract info from GitLab URL");
    if let Some((host, owner, name)) = result {
        assert_eq!(host, "gitlab.com");
        assert_eq!(owner, "owner");
        assert_eq!(name, "repo");
    }
}

#[test]
fn test_github_detection_from_remote() {
    // A repository with a GitHub remote URL is correctly detected.

    // A mock repository info with a GitHub remote
    let mut repo_info = RepoInfo::new();
    repo_info.owner = "owner".to_string();
    repo_info.name = "repo".to_string();
    repo_info.is_github_repo = true;

    // A test summary
    let mut summary = ChangesetSummary::new();
    summary.commits.push(Commit::parse("abc123".to_string(), "feat: Add feature".to_string()));

    assert!(
        repo_info.is_github_repo,
        "Repository should be detected as a GitHub repository"
    );

    // extract_repo_info correctly identifies GitHub URLs
    let github_url = "https://github.com/owner/repo.git";
    if let Some((host, _, _)) = extract_repo_info(github_url) {
        assert_eq!(host, "github.com", "Host should be detected as github.com");
    } else {
        panic!("Failed to extract repo info from GitHub URL");
    }

    // A URL with 'github' in it is detected
    let github_enterprise_url = "https://github.enterprise.com/owner/repo.git";
    if let Some((host, _, _)) = extract_repo_info(github_enterprise_url) {
        assert!(host.contains("github"), "Host should contain 'github'");
    } else {
        panic!("Failed to extract repo info from GitHub Enterprise URL");
    }
}

#[test]
fn test_repo_info_of_url() {
    let info = vnext::repo::repo_info_of_url("git@github.com:me/thing.git");
    assert_eq!(info.owner, "me");
    assert_eq!(info.name, "thing");
    assert!(info.is_github_repo);
    assert!(!info.is_gitlab_repo && !info.is_bitbucket_repo);

    let info = vnext::repo::repo_info_of_url("https://gitlab.com/me/thing.git");
    assert_eq!(info.owner, "me");
    assert_eq!(info.name, "thing");
    assert!(info.is_gitlab_repo);
    assert!(!info.is_github_repo && !info.is_bitbucket_repo);

    let info = vnext::repo::repo_info_of_url("https://bitbucket.org/me/thing");
    assert_eq!(info.owner, "me");
    assert_eq!(info.name, "thing");
    assert!(info.is_bitbucket_repo);
    assert!(!info.is_github_repo && !info.is_gitlab_repo);

    // A recognizable URL on an unrecognized host keeps owner and name but
    // sets no flag.
    let info = vnext::repo::repo_info_of_url("https://example.com/me/thing.git");
    assert_eq!(info.owner, "me");
    assert_eq!(info.name, "thing");
    assert!(!info.is_github_repo && !info.is_gitlab_repo && !info.is_bitbucket_repo);

    // An unreadable remote yields the empty identity.
    let info = vnext::repo::repo_info_of_url("not a url at all");
    assert_eq!(info.owner, "");
    assert_eq!(info.name, "");
    assert!(!info.is_github_repo && !info.is_gitlab_repo && !info.is_bitbucket_repo);
}

#[test]
fn test_is_github_repo() {
    assert_eq!(
        vnext::repo::is_github_repo("git@github.com:me/thing.git"),
        Some(("me".to_string(), "thing".to_string()))
    );
    assert!(vnext::repo::is_github_repo("https://gitlab.com/me/thing.git").is_none());
    assert!(vnext::repo::is_github_repo("not a url at all").is_none());
}
