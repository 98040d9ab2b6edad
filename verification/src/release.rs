//! From the provider's description of a release to the asset to download.
//!
//! The description is a JSON document; reading JSON is left to the
//! `serde_json` crate. The asset that is chosen is the first one listed.

use vstd::prelude::*;
use vstd::string::StringExecFns;
use crate::repository::RepositoryCoordinates;

verus! {

/// What the library reads from the description of a release.
#[derive(Clone, Debug, PartialEq, Eq)]
pub struct ReleaseDocument {
    /// The member `tag_name`, where it is a string.
    pub tag_name: Option<String>,
    /// For each element of the member `assets`, where that is an array,
    /// the element's member `browser_download_url`, where it is a string.
    pub asset_urls: Option<Vec<Option<String>>>,
}

/// The mathematical value of a [`ReleaseDocument`].
pub ghost struct ReleaseDocumentView {
    pub tag_name: Option<Seq<char>>,
    pub asset_urls: Option<Seq<Option<Seq<char>>>>,
}

/// The character sequence of a string that may be missing.
pub open spec fn optional_text(text: Option<String>) -> Option<Seq<char>> {
    match text {
        Some(t) => Some(t@),
        None => None,
    }
}

impl View for ReleaseDocument {
    type V = ReleaseDocumentView;

    open spec fn view(&self) -> ReleaseDocumentView {
        ReleaseDocumentView {
            tag_name: optional_text(self.tag_name),
            asset_urls: match self.asset_urls {
                Some(urls) => Some(Seq::new(urls@.len(), |i: int| optional_text(urls@[i]))),
                None => None,
            },
        }
    }
}

/// What `serde_json` makes of a document: `None` where
/// `serde_json::from_slice` refuses the bytes as JSON, else the string
/// under `tag_key` and, for the array under `assets_key`, the string under
/// `url_key` of each element.
pub uninterp spec fn document_fields(
    body: Seq<u8>,
    tag_key: Seq<char>,
    assets_key: Seq<char>,
    url_key: Seq<char>,
) -> Option<ReleaseDocumentView>;

/// Calls `serde_json::from_slice` for a `serde_json::Value` and reads three
/// things from it with the crate's indexing by key, `Value::as_str` and
/// `Value::as_array`. The result is the one that [`document_fields`] names
/// for these arguments.
#[verifier::external_body]
pub(crate) fn read_document_fields(body: &[u8], tag_key: &str, assets_key: &str, url_key: &str) -> (document: Option<ReleaseDocument>)
    ensures
        match document {
            Some(d) => document_fields(body@, tag_key@, assets_key@, url_key@) == Some(d@),
            None => document_fields(body@, tag_key@, assets_key@, url_key@) is None,
        },
{
    let value: serde_json::Value = serde_json::from_slice(body).ok()?;
    let tag_name = value[tag_key].as_str().map(String::from);
    let asset_urls = value[assets_key].as_array()
        .map(|assets| assets.iter().map(|asset| asset[url_key].as_str().map(String::from)).collect());
    Some(ReleaseDocument { tag_name, asset_urls })
}

/// The asset to download for a release.
#[derive(Clone, Debug, PartialEq, Eq)]
pub struct ReleaseAsset {
    pub tag_name: String,
    pub download_url: String,
}

/// The mathematical value of a [`ReleaseAsset`].
pub ghost struct ReleaseAssetView {
    pub tag_name: Seq<char>,
    pub download_url: Seq<char>,
}

impl View for ReleaseAsset {
    type V = ReleaseAssetView;

    open spec fn view(&self) -> ReleaseAssetView {
        ReleaseAssetView { tag_name: self.tag_name@, download_url: self.download_url@ }
    }
}

/// What a release offers for download.
#[derive(Clone, Debug, PartialEq, Eq)]
pub enum Resolution {
    /// The asset to download.
    Asset(ReleaseAsset),
    /// The release lists no asset.
    NoAssets,
    /// The first asset of the release has no download URL.
    NoDownloadUrl,
}

/// The mathematical value of a [`Resolution`].
pub ghost enum ResolutionView {
    Asset(ReleaseAssetView),
    NoAssets,
    NoDownloadUrl,
}

impl View for Resolution {
    type V = ResolutionView;

    open spec fn view(&self) -> ResolutionView {
        match self {
            Resolution::Asset(asset) => ResolutionView::Asset(asset@),
            Resolution::NoAssets => ResolutionView::NoAssets,
            Resolution::NoDownloadUrl => ResolutionView::NoDownloadUrl,
        }
    }
}

/// Why the description of a release cannot be used.
#[derive(Clone, Copy, Debug, PartialEq, Eq, Structural)]
pub enum ResolveError {
    /// The response is not a JSON document.
    InvalidDocument,
    /// The release has an asset to download but no tag name.
    MissingTagName,
}

/// The value of a result whose `Ok` side has a view.
pub open spec fn viewed<T: View, E>(result: Result<T, E>) -> Result<T::V, E> {
    match result {
        Ok(value) => Ok(value@),
        Err(error) => Err(error),
    }
}

/// The asset that a release document selects: the first of its assets.
/// A document without assets, and one whose first asset has no download
/// URL, select nothing; a document that has both but no tag name is an
/// error.
pub open spec fn selected(document: ReleaseDocumentView) -> Result<ResolutionView, ResolveError> {
    if document.asset_urls is None || document.asset_urls->0.len() == 0 {
        Ok(ResolutionView::NoAssets)
    } else if document.asset_urls->0[0] is None {
        Ok(ResolutionView::NoDownloadUrl)
    } else if document.tag_name is None {
        Err(ResolveError::MissingTagName)
    } else {
        Ok(
            ResolutionView::Asset(
                ReleaseAssetView {
                    tag_name: document.tag_name->0,
                    download_url: document.asset_urls->0[0]->0,
                },
            ),
        )
    }
}

/// What the body of a response resolves to, given what was read from it.
pub open spec fn resolved(fields: Option<ReleaseDocumentView>) -> Result<ResolutionView, ResolveError> {
    match fields {
        None => Err(ResolveError::InvalidDocument),
        Some(document) => selected(document),
    }
}

/// The address of the provider's description of the latest release of a
/// repository.
pub open spec fn release_api_url_of(owner: Seq<char>, repo: Seq<char>) -> Seq<char> {
    "https://api.github.com/repos/"@ + owner + "/"@ + repo + "/releases/latest"@
}

/// The label by which requests to the provider identify this client.
pub open spec fn client_label_of() -> Seq<char> {
    "ModManger/1.0"@
}

/// The address to request the latest release of a repository from.
pub fn release_api_url(coordinates: &RepositoryCoordinates) -> (url: String)
    ensures
        url@ == release_api_url_of(coordinates.owner@, coordinates.repo@),
{
    let mut url = "https://api.github.com/repos/".to_owned();
    url.append(coordinates.owner.as_str());
    url.append("/");
    url.append(coordinates.repo.as_str());
    url.append("/releases/latest");
    url
}

/// The label to send with every request to the provider, which rejects
/// requests that carry none.
pub fn client_label() -> (label: String)
    ensures
        label@ == client_label_of(),
{
    "ModManger/1.0".to_owned()
}

/// Reads the provider's description of a release.
pub fn read_release_document(body: &[u8]) -> (document: Option<ReleaseDocument>)
    ensures
        match document {
            Some(d) => document_fields(body@, "tag_name"@, "assets"@, "browser_download_url"@) == Some(d@),
            None => document_fields(body@, "tag_name"@, "assets"@, "browser_download_url"@) is None,
        },
{
    read_document_fields(body, "tag_name", "assets", "browser_download_url")
}

/// Selects the asset to download from a release document.
pub fn select_asset(document: ReleaseDocument) -> (selection: Result<Resolution, ResolveError>)
    ensures
        viewed(selection) == selected(document@),
{
    let urls = match document.asset_urls {
        None => {
            return Ok(Resolution::NoAssets);
        },
        Some(urls) => urls,
    };
    if urls.len() == 0 {
        return Ok(Resolution::NoAssets);
    }
    let download_url = match &urls[0] {
        None => {
            return Ok(Resolution::NoDownloadUrl);
        },
        Some(url) => url.clone(),
    };
    match document.tag_name {
        None => Err(ResolveError::MissingTagName),
        Some(tag_name) => Ok(Resolution::Asset(ReleaseAsset { tag_name, download_url })),
    }
}

/// Resolves the body of the provider's response to the asset to download.
pub fn resolve_release(body: &[u8]) -> (resolution: Result<Resolution, ResolveError>)
    ensures
        viewed(resolution) == resolved(
            document_fields(body@, "tag_name"@, "assets"@, "browser_download_url"@),
        ),
{
    match read_release_document(body) {
        None => Err(ResolveError::InvalidDocument),
        Some(document) => select_asset(document),
    }
}

/// Thunderstore is not a source of releases: this does nothing.
pub fn download_release_from_thunderstore() {
}

} // verus!
