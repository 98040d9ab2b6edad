use mod_manager::repository::{classify_parts, classify_repository_url};
use mod_manager::repository::{Classification, RepositoryCoordinates, UnsupportedReason, UrlParts};

fn coordinates(owner: &str, repo: &str) -> Classification {
    Classification::Supported(RepositoryCoordinates { owner: owner.to_string(), repo: repo.to_string() })
}

#[test]
fn repository_url_gives_owner_and_repo() {
    assert_eq!(classify_repository_url("https://github.com/o/r"), coordinates("o", "r"));
}

#[test]
fn segments_after_the_second_are_ignored() {
    assert_eq!(
        classify_repository_url("https://github.com/owner/repo/releases/tag/v2"),
        coordinates("owner", "repo")
    );
}

#[test]
fn query_and_fragment_are_no_part_of_the_path() {
    assert_eq!(classify_repository_url("https://github.com/a/b?tab=readme#top"), coordinates("a", "b"));
}

#[test]
fn host_is_compared_after_url_normalisation() {
    assert_eq!(classify_repository_url("https://GitHub.COM/o/r"), coordinates("o", "r"));
}

#[test]
fn other_host_is_unsupported() {
    assert_eq!(
        classify_repository_url("https://gitlab.com/o/r"),
        Classification::Unsupported(UnsupportedReason::UnsupportedHost)
    );
}

#[test]
fn subdomain_of_the_provider_is_another_host() {
    assert_eq!(
        classify_repository_url("https://api.github.com/o/r"),
        Classification::Unsupported(UnsupportedReason::UnsupportedHost)
    );
}

#[test]
fn url_without_host_is_unsupported() {
    assert_eq!(
        classify_repository_url("mailto:someone@github.com"),
        Classification::Unsupported(UnsupportedReason::UnsupportedHost)
    );
}

#[test]
fn text_that_is_no_url_is_invalid() {
    assert_eq!(
        classify_repository_url("not a url"),
        Classification::Unsupported(UnsupportedReason::InvalidUrl)
    );
    assert_eq!(classify_repository_url(""), Classification::Unsupported(UnsupportedReason::InvalidUrl));
    assert_eq!(
        classify_repository_url("github.com/o/r"),
        Classification::Unsupported(UnsupportedReason::InvalidUrl)
    );
}

#[test]
fn single_segment_is_too_short() {
    assert_eq!(
        classify_repository_url("https://github.com/onlyowner"),
        Classification::Unsupported(UnsupportedReason::MissingRepositoryPath)
    );
}

#[test]
fn bare_host_is_too_short() {
    assert_eq!(
        classify_repository_url("https://github.com"),
        Classification::Unsupported(UnsupportedReason::MissingRepositoryPath)
    );
    assert_eq!(
        classify_repository_url("https://github.com/"),
        Classification::Unsupported(UnsupportedReason::MissingRepositoryPath)
    );
}

#[test]
fn trailing_slash_counts_as_an_empty_segment() {
    assert_eq!(classify_repository_url("https://github.com/o/"), coordinates("o", ""));
}

#[test]
fn host_without_any_path_is_too_short() {
    assert_eq!(
        classify_repository_url("git://github.com"),
        Classification::Unsupported(UnsupportedReason::MissingRepositoryPath)
    );
}

#[test]
fn parts_are_checked_in_order() {
    assert_eq!(classify_parts(None), Classification::Unsupported(UnsupportedReason::InvalidUrl));
    let other_host = UrlParts { host: Some("example.org".to_string()), path_segments: None };
    assert_eq!(classify_parts(Some(other_host)), Classification::Unsupported(UnsupportedReason::UnsupportedHost));
    let no_host = UrlParts { host: None, path_segments: Some(vec!["o".to_string(), "r".to_string()]) };
    assert_eq!(classify_parts(Some(no_host)), Classification::Unsupported(UnsupportedReason::UnsupportedHost));
    let no_path = UrlParts { host: Some("github.com".to_string()), path_segments: None };
    assert_eq!(
        classify_parts(Some(no_path)),
        Classification::Unsupported(UnsupportedReason::MissingRepositoryPath)
    );
    let short = UrlParts { host: Some("github.com".to_string()), path_segments: Some(vec!["o".to_string()]) };
    assert_eq!(
        classify_parts(Some(short)),
        Classification::Unsupported(UnsupportedReason::MissingRepositoryPath)
    );
    let full = UrlParts {
        host: Some("github.com".to_string()),
        path_segments: Some(vec!["o".to_string(), "r".to_string(), "x".to_string()]),
    };
    assert_eq!(classify_parts(Some(full)), coordinates("o", "r"));
}
