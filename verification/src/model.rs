//! The mathematical model of the resolution workflow: the phases a resolution
//! passes through, the actions it asks its driver to perform, the events the
//! driver hands back, and the transition function over them.
//!
//! The executable machine in [`crate::resolver`] is proved to follow
//! [`step_model`] exactly; the laws at the end of this module are therefore
//! laws of the executable machine too.

use vstd::prelude::*;

use crate::error::ErrorView;
use crate::platform::Arch;
use crate::platform::DownloadKind;
use crate::platform::Os;
use crate::platform::spec_asset_suffix;
use crate::platform::spec_binary_name;
use crate::platform::spec_download_kind;
use crate::platform::spec_supported;
use crate::paths::spec_binary_path;
use crate::paths::spec_download_path;
use crate::paths::spec_version_dir;
use crate::release::ReleaseView;
use crate::release::spec_select_asset;

verus! {

/// The upstream project whose latest release is provisioned.
pub open spec fn spec_repo_coordinate() -> Seq<char> {
    "dhall-lang/dhall-haskell"@
}

/// Where a resolution stands between two driver events.
pub enum PhaseView {
    /// Waiting for the user-path lookup.
    Which,
    /// Waiting for the filesystem check of the cached path.
    CacheCheck { candidate: Seq<char> },
    /// Waiting for the latest release of the upstream project.
    Release { suffix: Seq<char>, kind: DownloadKind },
    /// Waiting for the filesystem check of the expected binary path.
    BinaryCheck {
        kind: DownloadKind,
        url: Seq<char>,
        version_dir: Seq<char>,
        binary_path: Seq<char>,
        download_path: Seq<char>,
    },
    /// Waiting for the download of the selected asset.
    Download {
        kind: DownloadKind,
        version_dir: Seq<char>,
        binary_path: Seq<char>,
        download_path: Seq<char>,
    },
    /// Waiting for the external decompression step.
    Decompress { version_dir: Seq<char>, binary_path: Seq<char>, download_path: Seq<char> },
    /// Waiting for the cleanup sweep of the working directory.
    Prune { binary_path: Seq<char> },
    /// The resolution has finished.
    Done,
}

/// One in-flight resolution: the platform it runs for and its phase.
pub struct ResolutionView {
    pub os: Os,
    pub arch: Arch,
    pub phase: PhaseView,
}

/// Outcome of the external decompression step.
pub enum DecompressOutcomeView {
    /// The decompression program could not be started.
    LaunchFailed { cause: Seq<char> },
    /// The decompression program ran and exited with this status code.
    Exited { status: i32 },
}

/// Why a cleanup sweep failed.
pub enum PruneErrorView {
    /// The working directory could not be listed.
    ListDir { cause: Seq<char> },
    /// One directory entry could not be read.
    ReadEntry { cause: Seq<char> },
}

/// What the driver observed while carrying out the last action.
pub enum EventView {
    /// Result of the user-path lookup.
    WhichResult { found: Option<Seq<char>> },
    /// Whether the cached path still names a regular file.
    CacheFileIsFile { is_file: bool },
    /// The latest release, or the failure the lookup reported.
    ReleaseFetched { result: Result<ReleaseView, Seq<char>> },
    /// Whether the expected binary path names a regular file.
    BinaryExists { exists_on_disk: bool },
    /// Success of the download, or the failure it reported.
    Downloaded { result: Result<(), Seq<char>> },
    /// Outcome of the external decompression step.
    DecompressFinished { outcome: DecompressOutcomeView },
    /// Success of the cleanup sweep, or why it failed.
    PruneFinished { result: Result<(), PruneErrorView> },
}

/// What the machine asks the driver to do next.
pub enum ActionView {
    /// Look the binary up in the user's command search path.
    FindInPath { binary_name: Seq<char> },
    /// Check whether this path names a regular file (the cached candidate).
    StatCachedFile { path: Seq<char> },
    /// Report that an update check is underway, then fetch the latest release
    /// of the named project.
    FetchLatestRelease { repo: Seq<char>, require_assets: bool, pre_release: bool },
    /// Check whether this path names a regular file (the expected binary).
    StatBinary { path: Seq<char> },
    /// Report that a download is underway, then download the asset into the
    /// version directory.
    DownloadAsset { url: Seq<char>, destination_dir: Seq<char>, kind: DownloadKind },
    /// Run the external decompression program on the downloaded archive.
    RunDecompression { archive_path: Seq<char> },
    /// Sweep the working directory, removing every entry except `keep`.
    PruneWorkingDir { keep: Seq<char> },
    /// The resolution is over: return the path, or the failure.
    Finish { result: Result<Seq<char>, ErrorView> },
}

/// One transition of the machine: the cache slot after the step, the next
/// resolution state, and the action the driver must perform.
pub struct StepView {
    pub cache: Option<Seq<char>>,
    pub next: ResolutionView,
    pub action: ActionView,
}

/// Which event answers the current phase.
pub open spec fn event_fits(phase: PhaseView, ev: EventView) -> bool {
    match (phase, ev) {
        (PhaseView::Which, EventView::WhichResult { .. }) => true,
        (PhaseView::CacheCheck { .. }, EventView::CacheFileIsFile { .. }) => true,
        (PhaseView::Release { .. }, EventView::ReleaseFetched { .. }) => true,
        (PhaseView::BinaryCheck { .. }, EventView::BinaryExists { .. }) => true,
        (PhaseView::Download { .. }, EventView::Downloaded { .. }) => true,
        (PhaseView::Decompress { .. }, EventView::DecompressFinished { .. }) => true,
        (PhaseView::Prune { .. }, EventView::PruneFinished { .. }) => true,
        _ => false,
    }
}

/// Starting a resolution: the machine first asks for the user-path lookup of
/// the platform's binary name.
pub open spec fn start_model(os: Os, arch: Arch) -> (ResolutionView, ActionView) {
    (
        ResolutionView { os, arch, phase: PhaseView::Which },
        ActionView::FindInPath { binary_name: spec_binary_name(os) },
    )
}

/// Entering the provisioning pass: on a supported platform the machine asks
/// for the latest release (the platform's suffix is fixed here, before any
/// network work); on an unsupported platform it fails at once, naming both
/// platform values.
pub open spec fn enter_provisioning(cache: Option<Seq<char>>, r: ResolutionView) -> StepView {
    if spec_supported(r.os, r.arch) {
        StepView {
            cache,
            next: ResolutionView {
                os: r.os,
                arch: r.arch,
                phase: PhaseView::Release {
                    suffix: spec_asset_suffix(r.os, r.arch),
                    kind: spec_download_kind(r.os, r.arch),
                },
            },
            action: ActionView::FetchLatestRelease {
                repo: spec_repo_coordinate(),
                require_assets: true,
                pre_release: false,
            },
        }
    } else {
        StepView {
            cache,
            next: ResolutionView { os: r.os, arch: r.arch, phase: PhaseView::Done },
            action: ActionView::Finish {
                result: Err(ErrorView::UnsupportedPlatform { os: r.os, arch: r.arch }),
            },
        }
    }
}

/// Finishing a resolution without touching the cache slot.
pub open spec fn finish_model(
    cache: Option<Seq<char>>,
    r: ResolutionView,
    result: Result<Seq<char>, ErrorView>,
) -> StepView {
    StepView {
        cache,
        next: ResolutionView { os: r.os, arch: r.arch, phase: PhaseView::Done },
        action: ActionView::Finish { result },
    }
}

/// The transition function of the resolution machine.  Given the cache slot,
/// the current resolution state and the event the driver observed, it yields
/// the cache slot after the step, the next state, and the next action.
pub open spec fn step_model(
    cache: Option<Seq<char>>,
    r: ResolutionView,
    ev: EventView,
) -> StepView
    recommends
        event_fits(r.phase, ev),
{
    match (r.phase, ev) {
        (PhaseView::Which, EventView::WhichResult { found }) => match found {
            // A binary on the user's path wins outright and is returned verbatim.
            Some(path) => finish_model(cache, r, Ok(path)),
            None => match cache {
                // A cached path is only trusted after a filesystem check.
                Some(candidate) => StepView {
                    cache,
                    next: ResolutionView {
                        os: r.os,
                        arch: r.arch,
                        phase: PhaseView::CacheCheck { candidate },
                    },
                    action: ActionView::StatCachedFile { path: candidate },
                },
                None => enter_provisioning(cache, r),
            },
        },
        (PhaseView::CacheCheck { candidate }, EventView::CacheFileIsFile { is_file }) => {
            if is_file {
                finish_model(cache, r, Ok(candidate))
            } else {
                // The cached file was deleted externally: provision anew.
                enter_provisioning(cache, r)
            }
        },
        (PhaseView::Release { suffix, kind }, EventView::ReleaseFetched { result }) => match result {
            Err(cause) => finish_model(cache, r, Err(ErrorView::ReleaseFetchFailed { cause })),
            Ok(rel) => match spec_select_asset(rel.assets, suffix) {
                None => finish_model(cache, r, Err(ErrorView::NoMatchingAsset { suffix })),
                Some(i) => {
                    let version_dir = spec_version_dir(rel.version);
                    let binary_path = spec_binary_path(version_dir, spec_binary_name(r.os));
                    let download_path = spec_download_path(version_dir, rel.assets[i].name);
                    StepView {
                        cache,
                        next: ResolutionView {
                            os: r.os,
                            arch: r.arch,
                            phase: PhaseView::BinaryCheck {
                                kind,
                                url: rel.assets[i].download_url,
                                version_dir,
                                binary_path,
                                download_path,
                            },
                        },
                        action: ActionView::StatBinary { path: binary_path },
                    }
                },
            },
        },
        (
            PhaseView::BinaryCheck { kind, url, version_dir, binary_path, download_path },
            EventView::BinaryExists { exists_on_disk },
        ) => {
            if exists_on_disk {
                // The wanted version is already on disk: record it and return
                // it, with no download and no decompression.
                StepView {
                    cache: Some(binary_path),
                    next: ResolutionView { os: r.os, arch: r.arch, phase: PhaseView::Done },
                    action: ActionView::Finish { result: Ok(binary_path) },
                }
            } else {
                StepView {
                    cache,
                    next: ResolutionView {
                        os: r.os,
                        arch: r.arch,
                        phase: PhaseView::Download { kind, version_dir, binary_path, download_path },
                    },
                    action: ActionView::DownloadAsset { url, destination_dir: version_dir, kind },
                }
            }
        },
        (
            PhaseView::Download { kind, version_dir, binary_path, download_path },
            EventView::Downloaded { result },
        ) => match result {
            Err(cause) => finish_model(cache, r, Err(ErrorView::DownloadFailed { cause })),
            Ok(_) => match kind {
                // A plain tarball still has to be decompressed externally.
                DownloadKind::Uncompressed => StepView {
                    cache,
                    next: ResolutionView {
                        os: r.os,
                        arch: r.arch,
                        phase: PhaseView::Decompress { version_dir, binary_path, download_path },
                    },
                    action: ActionView::RunDecompression { archive_path: download_path },
                },
                // A zip was already unpacked by the host: straight to cleanup.
                DownloadKind::Zip => StepView {
                    cache,
                    next: ResolutionView {
                        os: r.os,
                        arch: r.arch,
                        phase: PhaseView::Prune { binary_path },
                    },
                    action: ActionView::PruneWorkingDir { keep: version_dir },
                },
            },
        },
        (
            PhaseView::Decompress { version_dir, binary_path, download_path },
            EventView::DecompressFinished { outcome },
        ) => match outcome {
            DecompressOutcomeView::LaunchFailed { cause } => finish_model(
                cache,
                r,
                Err(ErrorView::DecompressLaunchFailed { archive_path: download_path, cause }),
            ),
            DecompressOutcomeView::Exited { status } => {
                if status == 0 {
                    StepView {
                        cache,
                        next: ResolutionView {
                            os: r.os,
                            arch: r.arch,
                            phase: PhaseView::Prune { binary_path },
                        },
                        action: ActionView::PruneWorkingDir { keep: version_dir },
                    }
                } else {
                    finish_model(
                        cache,
                        r,
                        Err(ErrorView::DecompressFailed {
                            archive_path: download_path,
                            status,
                        }),
                    )
                }
            },
        },
        (PhaseView::Prune { binary_path }, EventView::PruneFinished { result }) => match result {
            Err(PruneErrorView::ListDir { cause }) => finish_model(
                cache,
                r,
                Err(ErrorView::WorkingDirListFailed { cause }),
            ),
            Err(PruneErrorView::ReadEntry { cause }) => finish_model(
                cache,
                r,
                Err(ErrorView::DirEntryFailed { cause }),
            ),
            // Provisioning succeeded: the binary path goes into the cache slot
            // and is returned.
            Ok(_) => StepView {
                cache: Some(binary_path),
                next: ResolutionView { os: r.os, arch: r.arch, phase: PhaseView::Done },
                action: ActionView::Finish { result: Ok(binary_path) },
            },
        },
        // An event that does not answer the phase.  The executable machine
        // requires `event_fits`, so this arm is never its image; any value
        // would do.
        _ => StepView { cache, next: r, action: ActionView::Finish { result: Ok(Seq::empty()) } },
    }
}

} // verus!
