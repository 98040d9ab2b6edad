//! From a mod's URL to the repository that publishes it.
//!
//! URL syntax is left to the `url` crate. A URL names a repository when its
//! host is the hosting provider and its path begins with an owner and a
//! repository name; every other URL is classified with the reason why it
//! is not supported.

use url::Url;
use vstd::prelude::*;
use crate::text::{same_text, texts};

verus! {

/// What the library reads from a parsed URL.
#[derive(Clone, Debug, PartialEq, Eq)]
pub struct UrlParts {
    /// The host, where the URL has one.
    pub host: Option<String>,
    /// The segments of the path, where the URL can have any.
    pub path_segments: Option<Vec<String>>,
}

/// The mathematical value of [`UrlParts`].
pub ghost struct UrlPartsView {
    pub host: Option<Seq<char>>,
    pub path_segments: Option<Seq<Seq<char>>>,
}

impl View for UrlParts {
    type V = UrlPartsView;

    open spec fn view(&self) -> UrlPartsView {
        UrlPartsView {
            host: match self.host {
                Some(host) => Some(host@),
                None => None,
            },
            path_segments: match self.path_segments {
                Some(segments) => Some(texts(segments@)),
                None => None,
            },
        }
    }
}

/// What the `url` crate makes of a string: `None` where `Url::parse`
/// refuses it, else the host and the path segments of the parsed URL.
pub uninterp spec fn url_parts(input: Seq<char>) -> Option<UrlPartsView>;

/// Calls `url::Url::parse`, and on the URL that it returns `Url::host_str`
/// and `Url::path_segments`, copying what they hand out into strings. The
/// result is the one that [`url_parts`] names for `input`.
#[verifier::external_body]
pub(crate) fn split_url(input: &str) -> (parts: Option<UrlParts>)
    ensures
        match parts {
            Some(p) => url_parts(input@) == Some(p@),
            None => url_parts(input@) is None,
        },
{
    let url = Url::parse(input).ok()?;
    let host = url.host_str().map(String::from);
    let path_segments = url.path_segments().map(|segments| segments.map(String::from).collect());
    Some(UrlParts { host, path_segments })
}

/// The owner and the name of a repository at the hosting provider.
#[derive(Clone, Debug, PartialEq, Eq)]
pub struct RepositoryCoordinates {
    pub owner: String,
    pub repo: String,
}

/// The mathematical value of [`RepositoryCoordinates`].
pub ghost struct RepositoryCoordinatesView {
    pub owner: Seq<char>,
    pub repo: Seq<char>,
}

impl View for RepositoryCoordinates {
    type V = RepositoryCoordinatesView;

    open spec fn view(&self) -> RepositoryCoordinatesView {
        RepositoryCoordinatesView { owner: self.owner@, repo: self.repo@ }
    }
}

/// Why a URL names no repository that can be installed from.
#[derive(Clone, Copy, Debug, PartialEq, Eq, Structural)]
pub enum UnsupportedReason {
    /// The string is not an absolute URL.
    InvalidUrl,
    /// The URL's host is not the hosting provider.
    UnsupportedHost,
    /// The URL's path has fewer than two segments.
    MissingRepositoryPath,
}

/// A mod's URL, classified.
#[derive(Clone, Debug, PartialEq, Eq)]
pub enum Classification {
    Supported(RepositoryCoordinates),
    Unsupported(UnsupportedReason),
}

/// The mathematical value of a [`Classification`].
pub ghost enum ClassificationView {
    Supported(RepositoryCoordinatesView),
    Unsupported(UnsupportedReason),
}

impl View for Classification {
    type V = ClassificationView;

    open spec fn view(&self) -> ClassificationView {
        match self {
            Classification::Supported(coordinates) => ClassificationView::Supported(coordinates@),
            Classification::Unsupported(reason) => ClassificationView::Unsupported(*reason),
        }
    }
}

/// The host of the one hosting provider that is supported.
pub open spec fn provider_host() -> Seq<char> {
    "github.com"@
}

/// The classification of a URL with the given parts. The checks are made
/// in this order: the URL parses, its host is the provider's, its path has
/// two segments or more. The first two segments are owner and repository.
pub open spec fn classified(parts: Option<UrlPartsView>) -> ClassificationView {
    match parts {
        None => ClassificationView::Unsupported(UnsupportedReason::InvalidUrl),
        Some(p) => {
            if p.host != Some(provider_host()) {
                ClassificationView::Unsupported(UnsupportedReason::UnsupportedHost)
            } else if p.path_segments is Some && p.path_segments->0.len() >= 2 {
                ClassificationView::Supported(
                    RepositoryCoordinatesView {
                        owner: p.path_segments->0[0],
                        repo: p.path_segments->0[1],
                    },
                )
            } else {
                ClassificationView::Unsupported(UnsupportedReason::MissingRepositoryPath)
            }
        },
    }
}

/// Classifies a URL from its parts; `None` stands for a string that is no
/// URL.
pub fn classify_parts(parts: Option<UrlParts>) -> (classification: Classification)
    ensures
        classification@ == classified(
            match parts {
                Some(p) => Some(p@),
                None => None,
            },
        ),
{
    let parts = match parts {
        None => {
            return Classification::Unsupported(UnsupportedReason::InvalidUrl);
        },
        Some(parts) => parts,
    };
    let on_provider = match &parts.host {
        None => false,
        Some(host) => same_text(host.as_str(), "github.com"),
    };
    if !on_provider {
        return Classification::Unsupported(UnsupportedReason::UnsupportedHost);
    }
    match &parts.path_segments {
        None => Classification::Unsupported(UnsupportedReason::MissingRepositoryPath),
        Some(segments) => {
            if segments.len() >= 2 {
                Classification::Supported(
                    RepositoryCoordinates { owner: segments[0].clone(), repo: segments[1].clone() },
                )
            } else {
                Classification::Unsupported(UnsupportedReason::MissingRepositoryPath)
            }
        },
    }
}

/// Classifies the URL of a mod.
pub fn classify_repository_url(url: &str) -> (classification: Classification)
    ensures
        classification@ == classified(url_parts(url@)),
{
    classify_parts(split_url(url))
}

} // verus!
