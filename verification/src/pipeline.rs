//! The installation of one mod as a state machine.
//!
//! A mod goes through four stages: its URL is classified, the provider is
//! asked for the latest release, the release's asset is downloaded into
//! the cache, and the archive is unpacked. The machine decides; the caller
//! does the network and disk work that each [`Action`] names and reports
//! back with an [`Event`].

use vstd::prelude::*;
use crate::archive::{zip_directory, RawEntryView};
use crate::cache::{cache_file_name, cache_file_name_of, cache_path, cache_path_of};
use crate::config::{ModSpec, ModSpecView};
use crate::extract::{entry_outcome, lemma_plan_is_determined, lemma_planned_count, lemma_planned_step_lies_under_dir};
use crate::extract::{lies_under, plan_extraction, plan_failure, plan_steps, planned_count, step_views};
use crate::extract::{ArchiveError, ExtractionPlan, PlannedEntry, PlannedEntryView};
use crate::release::{client_label, client_label_of, release_api_url, release_api_url_of, resolve_release};
use crate::release::{document_fields, resolved, viewed, Resolution, ResolutionView, ResolveError};
use crate::repository::{classified, classify_repository_url, provider_host, url_parts};
use crate::repository::{Classification, ClassificationView, UnsupportedReason};

verus! {

/// Why a mod is passed over without being an error.
#[derive(Clone, Copy, Debug, PartialEq, Eq, Structural)]
pub enum SkipReason {
    /// The mod's URL names no repository at the provider.
    Unsupported(UnsupportedReason),
    /// The latest release lists no asset.
    NoAssets,
    /// The first asset of the latest release has no download URL.
    NoDownloadUrl,
}

/// Why the installation of a mod failed.
#[derive(Clone, Copy, Debug, PartialEq, Eq, Structural)]
pub enum Failure {
    /// The request for the latest release failed.
    ReleaseRequest,
    /// The provider's answer cannot be used.
    Release(ResolveError),
    /// The asset could not be downloaded into the cache.
    Download,
    /// The cached archive could not be read back.
    ArchiveRead,
    /// The archive cannot be unpacked in full.
    Archive(ArchiveError),
    /// A file or directory could not be created.
    Write,
    /// An event came that the stage does not wait for.
    UnexpectedEvent,
}

/// How the installation of a mod ended.
#[derive(Clone, Copy, Debug, PartialEq, Eq, Structural)]
pub enum Outcome {
    Installed,
    Skipped(SkipReason),
    Failed(Failure),
}

/// Where the installation of a mod stands.
#[derive(Clone, Debug, PartialEq, Eq)]
pub enum Stage {
    /// Nothing has been done yet.
    NotStarted,
    /// The provider has been asked for the latest release.
    AwaitingRelease,
    /// The asset is being downloaded into the cache file `cache_file`.
    AwaitingDownload { cache_file: String },
    /// The cached archive is being read back.
    AwaitingArchive,
    /// The planned entries are being written. `failure` is the reason why
    /// the plan stops short of the whole archive, if it does.
    AwaitingWrites { failure: Option<ArchiveError> },
    /// The installation has ended.
    Finished(Outcome),
}

/// The mathematical value of a [`Stage`].
pub ghost enum StageView {
    NotStarted,
    AwaitingRelease,
    AwaitingDownload { cache_file: Seq<char> },
    AwaitingArchive,
    AwaitingWrites { failure: Option<ArchiveError> },
    Finished(Outcome),
}

impl View for Stage {
    type V = StageView;

    open spec fn view(&self) -> StageView {
        match self {
            Stage::NotStarted => StageView::NotStarted,
            Stage::AwaitingRelease => StageView::AwaitingRelease,
            Stage::AwaitingDownload { cache_file } => StageView::AwaitingDownload { cache_file: cache_file@ },
            Stage::AwaitingArchive => StageView::AwaitingArchive,
            Stage::AwaitingWrites { failure } => StageView::AwaitingWrites { failure: *failure },
            Stage::Finished(outcome) => StageView::Finished(*outcome),
        }
    }
}

/// What the caller reports to the machine.
#[derive(Clone, Debug, PartialEq, Eq)]
pub enum Event {
    /// The installation is to begin.
    Start,
    /// The provider answered the request for the release with this body.
    ReleaseReceived(Vec<u8>),
    /// The asset is stored in the cache.
    Downloaded,
    /// The cached archive holds these bytes.
    ArchiveRead(Vec<u8>),
    /// All planned entries are written.
    EntriesWritten,
    /// The work that the last action asked for failed.
    Failed,
}

/// The mathematical value of an [`Event`].
pub ghost enum EventView {
    Start,
    ReleaseReceived(Seq<u8>),
    Downloaded,
    ArchiveRead(Seq<u8>),
    EntriesWritten,
    Failed,
}

impl View for Event {
    type V = EventView;

    open spec fn view(&self) -> EventView {
        match self {
            Event::Start => EventView::Start,
            Event::ReleaseReceived(body) => EventView::ReleaseReceived(body@),
            Event::Downloaded => EventView::Downloaded,
            Event::ArchiveRead(bytes) => EventView::ArchiveRead(bytes@),
            Event::EntriesWritten => EventView::EntriesWritten,
            Event::Failed => EventView::Failed,
        }
    }
}

/// What the machine asks the caller to do.
#[derive(Clone, Debug, PartialEq, Eq)]
pub enum Action {
    /// Request `url` with `client_label` as the client's name and report
    /// the body of the answer.
    RequestRelease { url: String, client_label: String },
    /// Request `url` and store the body of the answer in the file
    /// `cache_path`.
    DownloadAsset { url: String, cache_path: String },
    /// Read the file `cache_path` and report its bytes.
    ReadArchive { cache_path: String },
    /// Carry out the entries in order.
    WriteEntries { entries: Vec<PlannedEntry> },
    /// Nothing: the installation of this mod has ended.
    Stop,
}

/// The mathematical value of an [`Action`].
pub ghost enum ActionView {
    RequestRelease { url: Seq<char>, client_label: Seq<char> },
    DownloadAsset { url: Seq<char>, cache_path: Seq<char> },
    ReadArchive { cache_path: Seq<char> },
    WriteEntries { entries: Seq<PlannedEntryView> },
    Stop,
}

impl View for Action {
    type V = ActionView;

    open spec fn view(&self) -> ActionView {
        match self {
            Action::RequestRelease { url, client_label } => ActionView::RequestRelease {
                url: url@,
                client_label: client_label@,
            },
            Action::DownloadAsset { url, cache_path } => ActionView::DownloadAsset {
                url: url@,
                cache_path: cache_path@,
            },
            Action::ReadArchive { cache_path } => ActionView::ReadArchive { cache_path: cache_path@ },
            Action::WriteEntries { entries } => ActionView::WriteEntries { entries: step_views(entries@) },
            Action::Stop => ActionView::Stop,
        }
    }
}

/// The stage that the machine moves to and what it asks for.
#[derive(Clone, Debug, PartialEq, Eq)]
pub struct Step {
    pub stage: Stage,
    pub action: Action,
}

/// The mathematical value of a [`Step`].
pub ghost struct StepView {
    pub stage: StageView,
    pub action: ActionView,
}

impl View for Step {
    type V = StepView;

    open spec fn view(&self) -> StepView {
        StepView { stage: self.stage@, action: self.action@ }
    }
}

/// The step that ends the installation with `outcome`.
pub open spec fn stopped(outcome: Outcome) -> StepView {
    StepView { stage: StageView::Finished(outcome), action: ActionView::Stop }
}

/// The first step: a URL that names no repository ends the installation
/// as skipped; for a repository the provider is asked for its latest
/// release.
pub open spec fn begun(classification: ClassificationView) -> StepView {
    match classification {
        ClassificationView::Unsupported(reason) => stopped(
            Outcome::Skipped(SkipReason::Unsupported(reason)),
        ),
        ClassificationView::Supported(coordinates) => StepView {
            stage: StageView::AwaitingRelease,
            action: ActionView::RequestRelease {
                url: release_api_url_of(coordinates.owner, coordinates.repo),
                client_label: client_label_of(),
            },
        },
    }
}

/// The step after the provider's answer: a release without an asset or
/// without a download URL ends the installation as skipped, an answer that
/// cannot be used as failed; else the asset is downloaded into the cache
/// file named after the mod and the release tag.
pub open spec fn released(mod_name: Seq<char>, resolution: Result<ResolutionView, ResolveError>) -> StepView {
    match resolution {
        Err(error) => stopped(Outcome::Failed(Failure::Release(error))),
        Ok(ResolutionView::NoAssets) => stopped(Outcome::Skipped(SkipReason::NoAssets)),
        Ok(ResolutionView::NoDownloadUrl) => stopped(Outcome::Skipped(SkipReason::NoDownloadUrl)),
        Ok(ResolutionView::Asset(asset)) => StepView {
            stage: StageView::AwaitingDownload {
                cache_file: cache_file_name_of(mod_name, asset.tag_name),
            },
            action: ActionView::DownloadAsset {
                url: asset.download_url,
                cache_path: cache_path_of(cache_file_name_of(mod_name, asset.tag_name)),
            },
        },
    }
}

/// The step after the download: the cache file is read back.
pub open spec fn downloaded(cache_file: Seq<char>) -> StepView {
    StepView {
        stage: StageView::AwaitingArchive,
        action: ActionView::ReadArchive { cache_path: cache_path_of(cache_file) },
    }
}

/// The step after the archive was read: bytes that are no archive end the
/// installation as failed; else the planned entries are written.
pub open spec fn unpacked(dir: Seq<char>, directory: Option<Seq<Option<RawEntryView>>>) -> StepView {
    match directory {
        None => stopped(Outcome::Failed(Failure::Archive(ArchiveError::NotAnArchive))),
        Some(entries) => StepView {
            stage: StageView::AwaitingWrites { failure: plan_failure(dir, entries) },
            action: ActionView::WriteEntries { entries: plan_steps(dir, entries) },
        },
    }
}

/// The step after the entries were written: the mod is installed unless
/// the plan stopped short of the whole archive.
pub open spec fn written(failure: Option<ArchiveError>) -> StepView {
    match failure {
        None => stopped(Outcome::Installed),
        Some(error) => stopped(Outcome::Failed(Failure::Archive(error))),
    }
}

/// The step that the machine takes for `mod_spec` in `stage` on `event`, with
/// `base` as the install directory of the list.
pub open spec fn next_step(mod_spec: ModSpecView, base: Seq<char>, stage: StageView, event: EventView) -> StepView {
    match (stage, event) {
        (StageView::Finished(outcome), _) => stopped(outcome),
        (StageView::NotStarted, EventView::Start) => begun(classified(url_parts(mod_spec.url))),
        (StageView::AwaitingRelease, EventView::ReleaseReceived(body)) => released(
            mod_spec.name,
            resolved(document_fields(body, "tag_name"@, "assets"@, "browser_download_url"@)),
        ),
        (StageView::AwaitingRelease, EventView::Failed) => stopped(Outcome::Failed(Failure::ReleaseRequest)),
        (StageView::AwaitingDownload { cache_file }, EventView::Downloaded) => downloaded(cache_file),
        (StageView::AwaitingDownload { .. }, EventView::Failed) => stopped(Outcome::Failed(Failure::Download)),
        (StageView::AwaitingArchive, EventView::ArchiveRead(bytes)) => unpacked(
            mod_spec.install_directory(base),
            zip_directory(bytes),
        ),
        (StageView::AwaitingArchive, EventView::Failed) => stopped(Outcome::Failed(Failure::ArchiveRead)),
        (StageView::AwaitingWrites { failure }, EventView::EntriesWritten) => written(failure),
        (StageView::AwaitingWrites { .. }, EventView::Failed) => stopped(Outcome::Failed(Failure::Write)),
        _ => stopped(Outcome::Failed(Failure::UnexpectedEvent)),
    }
}

/// Ends the installation with `outcome`.
pub fn stop(outcome: Outcome) -> (step: Step)
    ensures
        step@ == stopped(outcome),
{
    Step { stage: Stage::Finished(outcome), action: Action::Stop }
}

/// The first step for a mod whose URL has been classified.
pub fn begin(classification: Classification) -> (step: Step)
    ensures
        step@ == begun(classification@),
{
    match classification {
        Classification::Unsupported(reason) => stop(Outcome::Skipped(SkipReason::Unsupported(reason))),
        Classification::Supported(coordinates) => Step {
            stage: Stage::AwaitingRelease,
            action: Action::RequestRelease { url: release_api_url(&coordinates), client_label: client_label() },
        },
    }
}

/// The step after the provider's answer has been resolved.
pub fn after_release(mod_name: &str, resolution: Result<Resolution, ResolveError>) -> (step: Step)
    ensures
        step@ == released(mod_name@, viewed(resolution)),
{
    match resolution {
        Err(error) => stop(Outcome::Failed(Failure::Release(error))),
        Ok(Resolution::NoAssets) => stop(Outcome::Skipped(SkipReason::NoAssets)),
        Ok(Resolution::NoDownloadUrl) => stop(Outcome::Skipped(SkipReason::NoDownloadUrl)),
        Ok(Resolution::Asset(asset)) => {
            let cache_file = cache_file_name(mod_name, asset.tag_name.as_str());
            let path = cache_path(cache_file.as_str());
            Step {
                stage: Stage::AwaitingDownload { cache_file },
                action: Action::DownloadAsset { url: asset.download_url, cache_path: path },
            }
        },
    }
}

/// The step after the asset has been stored in `cache_file`.
pub fn after_download(cache_file: &str) -> (step: Step)
    ensures
        step@ == downloaded(cache_file@),
{
    Step { stage: Stage::AwaitingArchive, action: Action::ReadArchive { cache_path: cache_path(cache_file) } }
}

/// The step after the planned entries have been written.
pub fn after_writes(failure: Option<ArchiveError>) -> (step: Step)
    ensures
        step@ == written(failure),
{
    match failure {
        None => stop(Outcome::Installed),
        Some(error) => stop(Outcome::Failed(Failure::Archive(error))),
    }
}

/// The step after the cached archive has been read as `bytes`, for an
/// archive that is unpacked into `dir`.
pub fn after_archive(bytes: Vec<u8>, dir: &str) -> (step: Step)
    ensures
        step@ == unpacked(dir@, zip_directory(bytes@)),
{
    let plan = plan_extraction(bytes, dir);
    proof {
        if let Some(entries) = zip_directory(bytes@) {
            lemma_plan_is_determined(dir@, entries, step_views(plan.entries@), plan.failure);
        }
    }
    match plan.failure {
        Some(ArchiveError::NotAnArchive) => stop(Outcome::Failed(Failure::Archive(ArchiveError::NotAnArchive))),
        failure => Step {
            stage: Stage::AwaitingWrites { failure },
            action: Action::WriteEntries { entries: plan.entries },
        },
    }
}

/// Takes one step of the installation of `mod_spec`: from `stage`, on `event`,
/// to the next stage and the action to carry out. `base` is the install
/// directory of the list.
pub fn advance(mod_spec: &ModSpec, base: &str, stage: Stage, event: Event) -> (step: Step)
    ensures
        step@ == next_step(mod_spec@, base@, stage@, event@),
{
    match (stage, event) {
        (Stage::Finished(outcome), _) => stop(outcome),
        (Stage::NotStarted, Event::Start) => begin(classify_repository_url(mod_spec.url.as_str())),
        (Stage::AwaitingRelease, Event::ReleaseReceived(body)) => after_release(
            mod_spec.name.as_str(),
            resolve_release(body.as_slice()),
        ),
        (Stage::AwaitingRelease, Event::Failed) => stop(Outcome::Failed(Failure::ReleaseRequest)),
        (Stage::AwaitingDownload { cache_file }, Event::Downloaded) => after_download(cache_file.as_str()),
        (Stage::AwaitingDownload { .. }, Event::Failed) => stop(Outcome::Failed(Failure::Download)),
        (Stage::AwaitingArchive, Event::ArchiveRead(bytes)) => {
            let dir = mod_spec.install_directory(base);
            after_archive(bytes, dir.as_str())
        },
        (Stage::AwaitingArchive, Event::Failed) => stop(Outcome::Failed(Failure::ArchiveRead)),
        (Stage::AwaitingWrites { failure }, Event::EntriesWritten) => after_writes(failure),
        (Stage::AwaitingWrites { .. }, Event::Failed) => stop(Outcome::Failed(Failure::Write)),
        _ => stop(Outcome::Failed(Failure::UnexpectedEvent)),
    }
}

/// A mod whose URL is valid but on another host than the provider's is
/// skipped at its first step: nothing is requested and nothing written.
pub proof fn lemma_other_host_is_skipped(mod_spec: ModSpecView, base: Seq<char>)
    requires
        url_parts(mod_spec.url) matches Some(parts) && parts.host != Some(provider_host()),
    ensures
        next_step(mod_spec, base, StageView::NotStarted, EventView::Start) == stopped(
            Outcome::Skipped(SkipReason::Unsupported(UnsupportedReason::UnsupportedHost)),
        ),
{
}

/// A mod whose URL has fewer than two path segments is skipped at its
/// first step, for the host's sake where that is not the provider's, and
/// else for the path's.
pub proof fn lemma_short_path_is_skipped(mod_spec: ModSpecView, base: Seq<char>)
    requires
        url_parts(mod_spec.url) matches Some(parts) && (parts.path_segments matches Some(segments)
            ==> segments.len() < 2),
    ensures
        next_step(mod_spec, base, StageView::NotStarted, EventView::Start) == stopped(
            Outcome::Skipped(
                SkipReason::Unsupported(
                    if url_parts(mod_spec.url)->0.host == Some(provider_host()) {
                        UnsupportedReason::MissingRepositoryPath
                    } else {
                        UnsupportedReason::UnsupportedHost
                    },
                ),
            ),
        ),
{
}

/// A release that lists no asset leads to no download: the mod is skipped
/// when the provider's answer arrives.
pub proof fn lemma_release_without_assets_is_skipped(mod_spec: ModSpecView, base: Seq<char>, body: Seq<u8>)
    requires
        document_fields(body, "tag_name"@, "assets"@, "browser_download_url"@) matches Some(document)
            && (document.asset_urls matches Some(urls) ==> urls.len() == 0),
    ensures
        next_step(mod_spec, base, StageView::AwaitingRelease, EventView::ReleaseReceived(body)) == stopped(
            Outcome::Skipped(SkipReason::NoAssets),
        ),
{
}

/// Once the installation of a mod has ended, no event makes the machine
/// ask for anything again.
pub proof fn lemma_finished_is_final(mod_spec: ModSpecView, base: Seq<char>, outcome: Outcome, event: EventView)
    ensures
        next_step(mod_spec, base, StageView::Finished(outcome), event) == stopped(outcome),
{
}

/// Whatever the archive holds, every entry that the machine asks to write
/// lies under the mod's install directory.
pub proof fn lemma_writes_stay_in_install_directory(mod_spec: ModSpecView, base: Seq<char>, bytes: Seq<u8>)
    ensures
        next_step(mod_spec, base, StageView::AwaitingArchive, EventView::ArchiveRead(bytes)).action matches ActionView::WriteEntries {
            entries,
        } ==> forall|i: int|
            0 <= i < entries.len() ==> lies_under(mod_spec.install_directory(base), (#[trigger] entries[i]).path()),
{
    let dir = mod_spec.install_directory(base);
    if let Some(archived) = zip_directory(bytes) {
        let entries = plan_steps(dir, archived);
        lemma_planned_count(dir, archived);
        assert forall|i: int| 0 <= i < entries.len() implies lies_under(dir, (#[trigger] entries[i]).path()) by {
            assert(entry_outcome(dir, i as usize, archived[i]) is Ok);
            lemma_planned_step_lies_under_dir(dir, i as usize, archived[i]->0);
        }
    }
}

} // verus!
