use atask::error::ParseError;
use atask::git_ops::{check_commit_hash, parse_github_url};

#[test]
fn test_parse_github_ssh_url() {
    let ssh_urls = vec![
        "git@github.com:owner/repo.git",
        "git@github.folknology:owner/repo.git",
    ];

    for url in ssh_urls {
        let result = parse_github_url(url);
        assert!(result.is_ok(), "Should parse SSH URL: {}", url);
        let (owner, repo) = result.unwrap();
        assert_eq!(owner, "owner");
        assert_eq!(repo, "repo");
    }
}

#[test]
fn test_parse_github_https_url() {
    let https_urls = vec![
        "https://github.com/owner/repo.git",
        "https://github.com/owner/repo",
    ];

    for url in https_urls {
        let (owner, repo) = parse_github_url(url).unwrap();
        assert_eq!(owner, "owner");
        assert_eq!(repo, "repo");
    }
}

#[test]
fn ssh_url_with_one_segment_is_rejected() {
    assert_eq!(
        parse_github_url("git@github.com:project.git"),
        Err(ParseError::InvalidRepositoryPath)
    );
    assert_eq!(
        parse_github_url("git@github.com:a/b/c.git"),
        Err(ParseError::InvalidRepositoryPath)
    );
    assert_eq!(
        parse_github_url("git@github.com:/repo.git"),
        Err(ParseError::InvalidRepositoryPath)
    );
}

#[test]
fn https_url_needs_exactly_two_segments_after_the_host() {
    assert_eq!(
        parse_github_url("https://github.com/project.git"),
        Err(ParseError::InvalidRepositoryPath)
    );
    assert_eq!(
        parse_github_url("https://github.com/project"),
        Err(ParseError::InvalidRepositoryPath)
    );
    assert_eq!(
        parse_github_url("https://github.com/a/b/c.git"),
        Err(ParseError::InvalidRepositoryPath)
    );
    assert_eq!(
        parse_github_url("https://github.com/owner/"),
        Err(ParseError::InvalidRepositoryPath)
    );
    assert_eq!(
        parse_github_url("https://github.com//repo.git"),
        Err(ParseError::InvalidRepositoryPath)
    );
    assert_eq!(
        parse_github_url("https://github.com/owner/repo.git/"),
        Err(ParseError::InvalidRepositoryPath)
    );
    assert_eq!(parse_github_url("https://github.com"), Err(ParseError::InvalidHttpsUrl));
    assert_eq!(parse_github_url("https://github"), Err(ParseError::InvalidHttpsUrl));
}

#[test]
fn https_url_is_read_with_or_without_scheme() {
    let expected = Ok(("owner".to_string(), "repo".to_string()));
    assert_eq!(parse_github_url("http://github.com/owner/repo.git"), expected);
    assert_eq!(parse_github_url("github.com/owner/repo"), expected);
    assert_eq!(parse_github_url("https://github.com:443/owner/repo.git"), expected);
    assert_eq!(parse_github_url("ssh://git@github.com/owner/repo.git"), expected);
    assert_eq!(parse_github_url("https://user@github.example.org/owner/repo"), expected);
}

#[test]
fn url_errors_by_shape() {
    assert_eq!(parse_github_url("git@github.com"), Err(ParseError::InvalidSshUrl));
    assert_eq!(parse_github_url("github"), Err(ParseError::InvalidHttpsUrl));
    assert_eq!(
        parse_github_url("https://gitlab.com/owner/repo.git"),
        Err(ParseError::UnknownHost)
    );
    assert_eq!(
        parse_github_url("https://github.com/"),
        Err(ParseError::InvalidRepositoryPath)
    );
}

#[test]
fn git_suffix_is_stripped_as_often_as_it_stands() {
    assert_eq!(
        parse_github_url("https://github.com/owner/repo.git.git"),
        Ok(("owner".to_string(), "repo".to_string()))
    );
    assert_eq!(
        parse_github_url("git@github.com:owner/repo.git:22"),
        Ok(("owner".to_string(), "repo".to_string()))
    );
}

fn raw_commit() -> atask::git_ops::RawCommit {
    atask::git_ops::RawCommit {
        id: "1234567890abcdef1234567890abcdef12345678".to_string(),
        author_name: Some("Test User".to_string()),
        author_email: Some("test@example.com".to_string()),
        author_seconds: 1_700_000_000,
        author_offset_minutes: 120,
        message: Some("  Initial test commit\n".to_string()),
        changed_paths: vec![Some("test.txt".to_string())],
        line_origins: vec!['+'],
    }
}

#[test]
fn root_commit_counts_every_line_as_insertion() {
    let mut raw = raw_commit();
    raw.changed_paths = vec![Some("a.txt".to_string()), None, Some("b/c.txt".to_string())];
    raw.line_origins = vec!['+', '+', '+', '+', '+'];
    let info = atask::git_ops::CommitInfo::from_raw(raw).unwrap();
    assert_eq!(info.insertions, 5);
    assert_eq!(info.deletions, 0);
    assert_eq!(info.files_changed, vec!["a.txt".to_string(), "b/c.txt".to_string()]);
    assert_eq!(info.hash, "1234567890abcdef1234567890abcdef12345678");
    assert_eq!(info.author_name, "Test User");
    assert_eq!(info.author_email, "test@example.com");
    assert_eq!(info.message, "Initial test commit");
    assert_eq!(info.commit_date.secs, 1_700_000_000);
    assert_eq!(info.commit_date.nanos, 0);
}

#[test]
fn only_additions_and_deletions_are_counted() {
    let mut raw = raw_commit();
    raw.line_origins = vec![' ', '+', '-', '-', '=', '>', '<', 'F', 'H', 'B', '+', ' '];
    let info = atask::git_ops::CommitInfo::from_raw(raw).unwrap();
    assert_eq!(info.insertions, 2);
    assert_eq!(info.deletions, 2);
}

#[test]
fn absent_texts_get_their_defaults() {
    let mut raw = raw_commit();
    raw.author_name = None;
    raw.author_email = None;
    raw.message = None;
    raw.changed_paths = vec![];
    raw.line_origins = vec![];
    let info = atask::git_ops::CommitInfo::from_raw(raw).unwrap();
    assert_eq!(info.author_name, "Unknown");
    assert_eq!(info.author_email, "unknown@example.com");
    assert_eq!(info.message, "No message");
    assert!(info.files_changed.is_empty());
    assert_eq!(info.insertions, 0);
    assert_eq!(info.deletions, 0);
}

#[test]
fn author_time_out_of_range_is_a_repository_error() {
    let mut raw = raw_commit();
    raw.author_seconds = i64::MAX;
    assert_eq!(
        atask::git_ops::CommitInfo::from_raw(raw).unwrap_err(),
        atask::error::RepositoryError::InvalidTimestamp
    );
}

#[test]
fn lookup_of_a_commit_that_is_not_there_finds_nothing() {
    assert_eq!(
        check_commit_hash("1234567890abcdef1234567890abcdef12345678"),
        Ok(())
    );
    let result = atask::git_ops::found_commit(None);
    assert!(result.is_ok(), "Should handle non-existent hash gracefully");
    assert!(result.unwrap().is_none(), "Should return None for non-existent commit");
}

#[test]
fn lookup_of_a_commit_that_is_there_hands_out_its_record() {
    let found = atask::git_ops::found_commit(Some(raw_commit())).unwrap().unwrap();
    assert_eq!(found.hash, "1234567890abcdef1234567890abcdef12345678");
    let mut bad = raw_commit();
    bad.author_seconds = i64::MIN;
    assert_eq!(
        atask::git_ops::found_commit(Some(bad)).unwrap_err(),
        atask::error::RepositoryError::InvalidTimestamp
    );
}

#[test]
fn hash_of_wrong_form_is_a_parse_error() {
    assert_eq!(check_commit_hash("invalid_hash"), Err(ParseError::InvalidHash));
    assert_eq!(check_commit_hash(""), Err(ParseError::InvalidHash));
    assert_eq!(check_commit_hash("1234567"), Err(ParseError::InvalidHash));
    assert_eq!(
        check_commit_hash("1234567890abcdef1234567890abcdef1234567"),
        Err(ParseError::InvalidHash)
    );
    assert_eq!(
        check_commit_hash("1234567890abcdef1234567890abcdef123456789"),
        Err(ParseError::InvalidHash)
    );
    assert_eq!(
        check_commit_hash("1234567890abcdef1234567890abcdef1234567g"),
        Err(ParseError::InvalidHash)
    );
    assert_eq!(
        check_commit_hash("1234567890ABCDEF1234567890abcdef12345678"),
        Ok(())
    );
}

#[test]
fn errors_say_what_went_wrong() {
    assert_eq!(ParseError::InvalidDate.message(), "Failed to parse date");
    assert_eq!(ParseError::InvalidSshUrl.message(), "Invalid SSH URL format");
    assert_eq!(ParseError::InvalidHttpsUrl.message(), "Invalid HTTPS URL format");
    assert_eq!(
        ParseError::UnknownHost.message(),
        "URL does not appear to be a GitHub repository"
    );
    assert_eq!(ParseError::InvalidRepositoryPath.message(), "Invalid repository path format");
    assert_eq!(ParseError::InvalidHash.message(), "Invalid commit hash format");
    assert_eq!(ParseError::InvalidStatus.message(), "Invalid issue status");
    assert_eq!(ParseError::InvalidPriority.message(), "Invalid issue priority");
    assert_eq!(ParseError::InvalidFileList.message(), "Invalid list of changed files");
    assert_eq!(ParseError::InvalidCount.message(), "Invalid line count");
    assert_eq!(
        atask::error::RepositoryError::InvalidTimestamp.message(),
        "Failed to parse commit timestamp"
    );
    assert_eq!(
        atask::error::RepositoryError::Unresolved.message(),
        "Failed to resolve repository object"
    );
}

#[test]
fn walk_stops_at_its_limit() {
    let mut walk = atask::git_ops::CommitWalk::start(true, Some(2)).unwrap();
    let mut visited = 0;
    while walk.wants_more() && visited < 5 {
        let mut raw = raw_commit();
        raw.id = format!("{:040x}", visited);
        walk.accept(Some(raw)).unwrap();
        visited += 1;
    }
    assert_eq!(visited, 2);
    assert_eq!(walk.accept(Some(raw_commit())), Ok(()));
    assert_eq!(walk.accept(None), Ok(()));
    let commits = walk.finish();
    assert_eq!(commits.len(), 2, "Should respect limit");
    assert_eq!(commits[0].hash, format!("{:040x}", 0));
    assert_eq!(commits[1].hash, format!("{:040x}", 1));
}

#[test]
fn walk_without_limit_takes_every_commit_and_fails_on_a_bad_one() {
    let mut walk = atask::git_ops::CommitWalk::start(true, None).unwrap();
    for _ in 0..3 {
        assert!(walk.wants_more());
        walk.accept(Some(raw_commit())).unwrap();
    }
    let mut bad = raw_commit();
    bad.author_seconds = i64::MAX;
    assert_eq!(walk.accept(Some(bad)), Err(atask::error::RepositoryError::InvalidTimestamp));
    assert_eq!(walk.accept(None), Err(atask::error::RepositoryError::Unresolved));
    assert_eq!(walk.finish().len(), 3);
    let mut none = atask::git_ops::CommitWalk::start(true, Some(0)).unwrap();
    assert!(!none.wants_more());
    none.accept(Some(raw_commit())).unwrap();
    assert!(none.finish().is_empty());
}

#[test]
fn walk_of_a_repository_without_head_fails_at_once() {
    let failed = atask::git_ops::CommitWalk::start(false, Some(10));
    assert!(matches!(failed, Err(atask::error::RepositoryError::Unresolved)));
    let failed = atask::git_ops::CommitWalk::start(false, None);
    assert!(matches!(failed, Err(atask::error::RepositoryError::Unresolved)));
}

#[test]
fn record_of_the_walk_goes_to_the_coordinator_unchanged() {
    let info = atask::git_ops::CommitInfo::from_raw(raw_commit()).unwrap();
    let record = info.clone().into_record();
    assert_eq!(record.id, None);
    assert_eq!(record.hash, info.hash);
    assert_eq!(record.author_name, info.author_name);
    assert_eq!(record.author_email, info.author_email);
    assert_eq!(record.commit_date, info.commit_date);
    assert_eq!(record.message, info.message);
    assert_eq!(record.files_changed, info.files_changed);
    assert_eq!(record.insertions, info.insertions);
    assert_eq!(record.deletions, info.deletions);
}
