//! The executable resolution machine.  It owns the in-memory cache slot and
//! steps an in-flight [`Resolution`] through the phases of the model in
//! [`crate::model`]; every transition is proved equal to [`step_model`].
//!
//! The machine performs no I/O itself.  A driver carries out each [`Action`]
//! (path search, filesystem checks, release lookup, download, decompression,
//! cleanup) and hands the outcome back as an [`Event`].

use vstd::prelude::*;
use vstd::string::StringExecFns;

use crate::error::ResolveError;
use crate::model::ActionView;
use crate::model::DecompressOutcomeView;
use crate::model::EventView;
use crate::model::PhaseView;
use crate::model::PruneErrorView;
use crate::model::ResolutionView;
use crate::model::StepView;
use crate::model::event_fits;
use crate::model::start_model;
use crate::model::step_model;
use crate::platform::Arch;
use crate::platform::DownloadKind;
use crate::platform::Os;
use crate::platform::binary_name;
use crate::paths::binary_path_in;
use crate::paths::download_path_in;
use crate::paths::version_dir_name;
use crate::release::ReleaseInfo;
use crate::release::select_asset;

verus! {

/// Where a resolution stands between two driver events.
#[derive(Debug, PartialEq, Eq)]
pub enum Phase {
    Which,
    CacheCheck { candidate: String },
    Release { suffix: String, kind: DownloadKind },
    BinaryCheck {
        kind: DownloadKind,
        url: String,
        version_dir: String,
        binary_path: String,
        download_path: String,
    },
    Download { kind: DownloadKind, version_dir: String, binary_path: String, download_path: String },
    Decompress { version_dir: String, binary_path: String, download_path: String },
    Prune { binary_path: String },
    Done,
}

impl View for Phase {
    type V = PhaseView;

    open spec fn view(&self) -> PhaseView {
        match self {
            Phase::Which => PhaseView::Which,
            Phase::CacheCheck { candidate } => PhaseView::CacheCheck { candidate: candidate@ },
            Phase::Release { suffix, kind } => PhaseView::Release { suffix: suffix@, kind: *kind },
            Phase::BinaryCheck { kind, url, version_dir, binary_path, download_path } => {
                PhaseView::BinaryCheck {
                    kind: *kind,
                    url: url@,
                    version_dir: version_dir@,
                    binary_path: binary_path@,
                    download_path: download_path@,
                }
            },
            Phase::Download { kind, version_dir, binary_path, download_path } => {
                PhaseView::Download {
                    kind: *kind,
                    version_dir: version_dir@,
                    binary_path: binary_path@,
                    download_path: download_path@,
                }
            },
            Phase::Decompress { version_dir, binary_path, download_path } => {
                PhaseView::Decompress {
                    version_dir: version_dir@,
                    binary_path: binary_path@,
                    download_path: download_path@,
                }
            },
            Phase::Prune { binary_path } => PhaseView::Prune { binary_path: binary_path@ },
            Phase::Done => PhaseView::Done,
        }
    }
}

/// One in-flight resolution: the platform it runs for and its phase.
#[derive(Debug, PartialEq, Eq)]
pub struct Resolution {
    pub os: Os,
    pub arch: Arch,
    pub phase: Phase,
}

impl View for Resolution {
    type V = ResolutionView;

    open spec fn view(&self) -> ResolutionView {
        ResolutionView { os: self.os, arch: self.arch, phase: self.phase@ }
    }
}

/// Outcome of the external decompression step, as the driver observed it.
#[derive(Debug, PartialEq, Eq)]
pub enum DecompressOutcome {
    /// The decompression program could not be started.
    LaunchFailed { cause: String },
    /// The decompression program ran and exited with this status code.
    Exited { status: i32 },
}

impl View for DecompressOutcome {
    type V = DecompressOutcomeView;

    open spec fn view(&self) -> DecompressOutcomeView {
        match self {
            DecompressOutcome::LaunchFailed { cause } => DecompressOutcomeView::LaunchFailed {
                cause: cause@,
            },
            DecompressOutcome::Exited { status } => DecompressOutcomeView::Exited {
                status: *status,
            },
        }
    }
}

/// Why a cleanup sweep failed.
#[derive(Debug, PartialEq, Eq)]
pub enum PruneError {
    /// The working directory could not be listed.
    ListDir { cause: String },
    /// One directory entry could not be read.
    ReadEntry { cause: String },
}

impl View for PruneError {
    type V = PruneErrorView;

    open spec fn view(&self) -> PruneErrorView {
        match self {
            PruneError::ListDir { cause } => PruneErrorView::ListDir { cause: cause@ },
            PruneError::ReadEntry { cause } => PruneErrorView::ReadEntry { cause: cause@ },
        }
    }
}

/// What the driver observed while carrying out the last action.
#[derive(Debug, PartialEq, Eq)]
pub enum Event {
    WhichResult { found: Option<String> },
    CacheFileIsFile { is_file: bool },
    ReleaseFetched { result: Result<ReleaseInfo, String> },
    BinaryExists { exists_on_disk: bool },
    Downloaded { result: Result<(), String> },
    DecompressFinished { outcome: DecompressOutcome },
    PruneFinished { result: Result<(), PruneError> },
}

impl View for Event {
    type V = EventView;

    open spec fn view(&self) -> EventView {
        match self {
            Event::WhichResult { found } => EventView::WhichResult {
                found: match found {
                    Some(p) => Some(p@),
                    None => None,
                },
            },
            Event::CacheFileIsFile { is_file } => EventView::CacheFileIsFile {
                is_file: *is_file,
            },
            Event::ReleaseFetched { result } => EventView::ReleaseFetched {
                result: match result {
                    Ok(rel) => Ok(rel@),
                    Err(cause) => Err(cause@),
                },
            },
            Event::BinaryExists { exists_on_disk } => EventView::BinaryExists {
                exists_on_disk: *exists_on_disk,
            },
            Event::Downloaded { result } => EventView::Downloaded {
                result: match result {
                    Ok(_) => Ok(()),
                    Err(cause) => Err(cause@),
                },
            },
            Event::DecompressFinished { outcome } => EventView::DecompressFinished {
                outcome: outcome@,
            },
            Event::PruneFinished { result } => EventView::PruneFinished {
                result: match result {
                    Ok(_) => Ok(()),
                    Err(e) => Err(e@),
                },
            },
        }
    }
}

/// What the machine asks the driver to do next.
#[derive(Debug, PartialEq, Eq)]
pub enum Action {
    FindInPath { binary_name: String },
    StatCachedFile { path: String },
    FetchLatestRelease { repo: String, require_assets: bool, pre_release: bool },
    StatBinary { path: String },
    DownloadAsset { url: String, destination_dir: String, kind: DownloadKind },
    RunDecompression { archive_path: String },
    PruneWorkingDir { keep: String },
    Finish { result: Result<String, ResolveError> },
}

impl View for Action {
    type V = ActionView;

    open spec fn view(&self) -> ActionView {
        match self {
            Action::FindInPath { binary_name } => ActionView::FindInPath {
                binary_name: binary_name@,
            },
            Action::StatCachedFile { path } => ActionView::StatCachedFile { path: path@ },
            Action::FetchLatestRelease { repo, require_assets, pre_release } => {
                ActionView::FetchLatestRelease {
                    repo: repo@,
                    require_assets: *require_assets,
                    pre_release: *pre_release,
                }
            },
            Action::StatBinary { path } => ActionView::StatBinary { path: path@ },
            Action::DownloadAsset { url, destination_dir, kind } => ActionView::DownloadAsset {
                url: url@,
                destination_dir: destination_dir@,
                kind: *kind,
            },
            Action::RunDecompression { archive_path } => ActionView::RunDecompression {
                archive_path: archive_path@,
            },
            Action::PruneWorkingDir { keep } => ActionView::PruneWorkingDir { keep: keep@ },
            Action::Finish { result } => ActionView::Finish {
                result: match result {
                    Ok(p) => Ok(p@),
                    Err(e) => Err(e@),
                },
            },
        }
    }
}

/// The resolver for the `dhall-lsp-server` binary.  It owns the one in-memory
/// cache slot: the path of the last successfully provisioned binary, trusted
/// again only after a fresh filesystem check.
pub struct DhallLanguageServer {
    cached_binary_path: Option<String>,
}

impl DhallLanguageServer {
    /// The cache slot, as the contracts speak of it.
    pub closed spec fn cache(&self) -> Option<Seq<char>> {
        self.cached_binary_path.deep_view()
    }

    /// A fresh resolver, with an empty cache slot.
    pub fn new() -> (r: Self)
        ensures
            r.cache() is None,
    {
        DhallLanguageServer { cached_binary_path: None }
    }

    /// Begins a resolution for the given platform.  The first action is the
    /// user-path lookup of the platform's binary name.
    pub fn start_resolution(&self, os: Os, arch: Arch) -> (outcome: (Resolution, Action))
        ensures
            (outcome.0@, outcome.1@) == start_model(os, arch),
    {
        (
            Resolution { os, arch, phase: Phase::Which },
            Action::FindInPath { binary_name: String::from_str(binary_name(os)) },
        )
    }

    /// Advances a resolution by one event, exactly as [`step_model`] says:
    /// the cache slot, the next state and the next action are all pinned by
    /// the model.
    pub fn step(&mut self, r: Resolution, ev: Event) -> (outcome: (Resolution, Action))
        requires
            event_fits(r@.phase, ev@),
        ensures
            (StepView { cache: final(self).cache(), next: outcome.0@, action: outcome.1@ })
                == step_model(old(self).cache(), r@, ev@),
    {
        let Resolution { os, arch, phase } = r;
        match (phase, ev) {
            (Phase::Which, Event::WhichResult { found }) => match found {
                Some(path) => self.finish_with(os, arch, Ok(path)),
                None => match &self.cached_binary_path {
                    Some(c) => {
                        let candidate = c.clone();
                        let path = candidate.clone();
                        (
                            Resolution { os, arch, phase: Phase::CacheCheck { candidate } },
                            Action::StatCachedFile { path },
                        )
                    },
                    None => self.enter_provisioning(os, arch),
                },
            },
            (Phase::CacheCheck { candidate }, Event::CacheFileIsFile { is_file }) => {
                if is_file {
                    self.finish_with(os, arch, Ok(candidate))
                } else {
                    self.enter_provisioning(os, arch)
                }
            },
            (Phase::Release { suffix, kind }, Event::ReleaseFetched { result }) => match result {
                Err(cause) => self.finish_with(
                    os,
                    arch,
                    Err(ResolveError::ReleaseFetchFailed { cause }),
                ),
                Ok(rel) => match select_asset(&rel.assets, suffix.as_str()) {
                    None => self.finish_with(
                        os,
                        arch,
                        Err(ResolveError::NoMatchingAsset { suffix }),
                    ),
                    Some(i) => {
                        let version_dir = version_dir_name(rel.version.as_str());
                        let binary_path = binary_path_in(version_dir.as_str(), binary_name(os));
                        let download_path = download_path_in(
                            version_dir.as_str(),
                            rel.assets[i].name.as_str(),
                        );
                        let url = rel.assets[i].download_url.clone();
                        let path = binary_path.clone();
                        proof {
                            assert(rel.assets.deep_view()[i as int] == rel.assets@[i as int]@);
                        }
                        (
                            Resolution {
                                os,
                                arch,
                                phase: Phase::BinaryCheck {
                                    kind,
                                    url,
                                    version_dir,
                                    binary_path,
                                    download_path,
                                },
                            },
                            Action::StatBinary { path },
                        )
                    },
                },
            },
            (
                Phase::BinaryCheck { kind, url, version_dir, binary_path, download_path },
                Event::BinaryExists { exists_on_disk },
            ) => {
                if exists_on_disk {
                    self.cached_binary_path = Some(binary_path.clone());
                    (
                        Resolution { os, arch, phase: Phase::Done },
                        Action::Finish { result: Ok(binary_path) },
                    )
                } else {
                    let destination_dir = version_dir.clone();
                    (
                        Resolution {
                            os,
                            arch,
                            phase: Phase::Download { kind, version_dir, binary_path, download_path },
                        },
                        Action::DownloadAsset { url, destination_dir, kind },
                    )
                }
            },
            (
                Phase::Download { kind, version_dir, binary_path, download_path },
                Event::Downloaded { result },
            ) => match result {
                Err(cause) => self.finish_with(
                    os,
                    arch,
                    Err(ResolveError::DownloadFailed { cause }),
                ),
                Ok(_) => match kind {
                    DownloadKind::Uncompressed => {
                        let archive_path = download_path.clone();
                        (
                            Resolution {
                                os,
                                arch,
                                phase: Phase::Decompress {
                                    version_dir,
                                    binary_path,
                                    download_path,
                                },
                            },
                            Action::RunDecompression { archive_path },
                        )
                    },
                    DownloadKind::Zip => (
                        Resolution { os, arch, phase: Phase::Prune { binary_path } },
                        Action::PruneWorkingDir { keep: version_dir },
                    ),
                },
            },
            (
                Phase::Decompress { version_dir, binary_path, download_path },
                Event::DecompressFinished { outcome },
            ) => match outcome {
                DecompressOutcome::LaunchFailed { cause } => self.finish_with(
                    os,
                    arch,
                    Err(ResolveError::DecompressLaunchFailed {
                        archive_path: download_path,
                        cause,
                    }),
                ),
                DecompressOutcome::Exited { status } => {
                    if status == 0 {
                        (
                            Resolution { os, arch, phase: Phase::Prune { binary_path } },
                            Action::PruneWorkingDir { keep: version_dir },
                        )
                    } else {
                        self.finish_with(
                            os,
                            arch,
                            Err(ResolveError::DecompressFailed {
                                archive_path: download_path,
                                status,
                            }),
                        )
                    }
                },
            },
            (Phase::Prune { binary_path }, Event::PruneFinished { result }) => match result {
                Err(PruneError::ListDir { cause }) => self.finish_with(
                    os,
                    arch,
                    Err(ResolveError::WorkingDirListFailed { cause }),
                ),
                Err(PruneError::ReadEntry { cause }) => self.finish_with(
                    os,
                    arch,
                    Err(ResolveError::DirEntryFailed { cause }),
                ),
                Ok(_) => {
                    self.cached_binary_path = Some(binary_path.clone());
                    (
                        Resolution { os, arch, phase: Phase::Done },
                        Action::Finish { result: Ok(binary_path) },
                    )
                },
            },
            // Unreachable: `event_fits` rules every mismatched pair out.
            (phase, _) => (
                Resolution { os, arch, phase },
                Action::Finish { result: Ok(String::new()) },
            ),
        }
    }

    /// Ends the resolution with `result`, leaving the cache slot alone.
    fn finish_with(&self, os: Os, arch: Arch, result: Result<String, ResolveError>) -> (outcome: (
        Resolution,
        Action,
    ))
        ensures
            outcome.0@ == (ResolutionView { os, arch, phase: PhaseView::Done }),
            outcome.1@ == (ActionView::Finish {
                result: match result {
                    Ok(p) => Ok(p@),
                    Err(e) => Err(e@),
                },
            }),
    {
        (Resolution { os, arch, phase: Phase::Done }, Action::Finish { result })
    }

    /// Enters the provisioning pass, as [`enter_provisioning`] in the model
    /// says: the platform is mapped to its suffix before any network work,
    /// and an unsupported platform fails at once.
    fn enter_provisioning(&self, os: Os, arch: Arch) -> (outcome: (Resolution, Action))
        ensures
            (StepView { cache: self.cache(), next: outcome.0@, action: outcome.1@ })
                == crate::model::enter_provisioning(
                self.cache(),
                ResolutionView { os, arch, phase: PhaseView::Which },
            ),
    {
        match crate::platform::asset_suffix(os, arch) {
            Ok((suffix, kind)) => (
                Resolution { os, arch, phase: Phase::Release { suffix, kind } },
                Action::FetchLatestRelease {
                    repo: String::from_str("dhall-lang/dhall-haskell"),
                    require_assets: true,
                    pre_release: false,
                },
            ),
            Err(e) => (
                Resolution { os, arch, phase: Phase::Done },
                Action::Finish { result: Err(e) },
            ),
        }
    }
}

} // verus!
