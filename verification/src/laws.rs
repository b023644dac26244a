//! Laws of the resolution machine, proved once over the model in
//! [`crate::model`].  Because [`crate::resolver::DhallLanguageServer::step`]
//! is proved equal to [`step_model`], each law holds of the executable
//! machine as well.

use vstd::prelude::*;

use crate::error::ErrorView;
use crate::model::ActionView;
use crate::model::EventView;
use crate::model::PhaseView;
use crate::model::ResolutionView;
use crate::model::enter_provisioning;
use crate::model::event_fits;
use crate::model::spec_repo_coordinate;
use crate::model::start_model;
use crate::model::step_model;
use crate::platform::Arch;
use crate::platform::DownloadKind;
use crate::platform::Os;
use crate::platform::spec_asset_suffix;
use crate::platform::spec_binary_name;
use crate::platform::spec_download_kind;
use crate::platform::spec_supported;
use crate::paths::spec_binary_path;
use crate::paths::spec_version_dir;
use crate::release::ReleaseView;
use crate::release::lemma_first_match_from_characterizes;
use crate::release::spec_asset_matches;
use crate::release::spec_select_asset;

verus! {

/// An action that reaches the network: the release-metadata fetch or the
/// asset download.
pub open spec fn is_network_action(a: ActionView) -> bool {
    a matches ActionView::FetchLatestRelease { .. } || a matches ActionView::DownloadAsset { .. }
}

/// The phases a resolution only reaches through the provisioning entry.
pub open spec fn provisioning_phase(p: PhaseView) -> bool {
    match p {
        PhaseView::Release { .. } => true,
        PhaseView::BinaryCheck { .. } => true,
        PhaseView::Download { .. } => true,
        PhaseView::Decompress { .. } => true,
        PhaseView::Prune { .. } => true,
        _ => false,
    }
}

/// A resolution stands in a provisioning phase only when its platform pair is
/// supported.
pub open spec fn platform_inv(r: ResolutionView) -> bool {
    provisioning_phase(r.phase) ==> spec_supported(r.os, r.arch)
}

/// Law: on every supported platform pair, entering the provisioning pass
/// fixes exactly the documented asset suffix and download kind, and asks for
/// the latest non-pre-release, assets-bearing release of the fixed upstream
/// project.
pub proof fn lemma_provisioning_fixes_documented_suffix(
    cache: Option<Seq<char>>,
    r: ResolutionView,
)
    requires
        spec_supported(r.os, r.arch),
    ensures
        ({
            let s = enter_provisioning(cache, r);
            &&& s.action == (ActionView::FetchLatestRelease {
                repo: spec_repo_coordinate(),
                require_assets: true,
                pre_release: false,
            })
            &&& s.next.phase == (PhaseView::Release {
                suffix: spec_asset_suffix(r.os, r.arch),
                kind: spec_download_kind(r.os, r.arch),
            })
            &&& s.cache == cache
        }),
{
}

/// Law: starting a resolution establishes the platform invariant and performs
/// no network action.
pub proof fn lemma_start_satisfies_platform_inv(os: Os, arch: Arch)
    ensures
        platform_inv(start_model(os, arch).0),
        !is_network_action(start_model(os, arch).1),
{
}

/// Law: every step of the machine preserves the platform invariant.
pub proof fn lemma_step_preserves_platform_inv(
    cache: Option<Seq<char>>,
    r: ResolutionView,
    ev: EventView,
)
    requires
        platform_inv(r),
    ensures
        platform_inv(step_model(cache, r, ev).next),
{
}

/// Law: on an unsupported platform pair no step ever reaches the network, and
/// the step that would start provisioning fails instead, naming both platform
/// values.  With the two lemmas above, no resolution on an unsupported pair
/// ever fetches release metadata or downloads anything.
pub proof fn lemma_unsupported_platform_fails_before_network(
    cache: Option<Seq<char>>,
    r: ResolutionView,
    ev: EventView,
)
    requires
        platform_inv(r),
        !spec_supported(r.os, r.arch),
        event_fits(r.phase, ev),
    ensures
        !is_network_action(step_model(cache, r, ev).action),
        (r.phase is Which && ev == (EventView::WhichResult { found: None::<Seq<char>> }) && cache
            is None) ==> step_model(cache, r, ev).action == (ActionView::Finish {
            result: Err(ErrorView::UnsupportedPlatform { os: r.os, arch: r.arch }),
        }),
        (r.phase matches PhaseView::CacheCheck { .. } && ev == (EventView::CacheFileIsFile {
            is_file: false,
        })) ==> step_model(cache, r, ev).action == (ActionView::Finish {
            result: Err(ErrorView::UnsupportedPlatform { os: r.os, arch: r.arch }),
        }),
{
}

/// Law: a hit on the user's search path ends the resolution at once, returns
/// the user's path verbatim, and leaves the cache slot alone.
pub proof fn lemma_user_path_returned_verbatim(
    cache: Option<Seq<char>>,
    r: ResolutionView,
    path: Seq<char>,
)
    requires
        r.phase is Which,
    ensures
        ({
            let s = step_model(cache, r, EventView::WhichResult { found: Some(path) });
            &&& s.action == (ActionView::Finish { result: Ok(path) })
            &&& s.cache == cache
            &&& s.next.phase is Done
        }),
{
}

/// Law: a cached path whose file is gone is never returned; the machine
/// re-provisions instead (or fails at the platform boundary).
pub proof fn lemma_stale_cache_never_returned(cache: Option<Seq<char>>, r: ResolutionView)
    requires
        r.phase matches PhaseView::CacheCheck { .. },
    ensures
        ({
            let s = step_model(cache, r, EventView::CacheFileIsFile { is_file: false });
            &&& !(s.action matches ActionView::Finish { result: Ok(_) })
            &&& spec_supported(r.os, r.arch) ==> s.action matches ActionView::FetchLatestRelease {
                ..
            }
        }),
{
}

/// Law: when the expected binary of the fetched version already exists on
/// disk, the machine returns that path and records it in the cache slot,
/// with no download and no decompression.
pub proof fn lemma_existing_binary_returned_without_download(
    cache: Option<Seq<char>>,
    os: Os,
    arch: Arch,
    kind: DownloadKind,
    url: Seq<char>,
    version_dir: Seq<char>,
    binary_path: Seq<char>,
    download_path: Seq<char>,
)
    ensures
        ({
            let r = ResolutionView {
                os,
                arch,
                phase: PhaseView::BinaryCheck { kind, url, version_dir, binary_path, download_path },
            };
            let s = step_model(cache, r, EventView::BinaryExists { exists_on_disk: true });
            &&& s.action == (ActionView::Finish { result: Ok(binary_path) })
            &&& s.cache == Some(binary_path)
            &&& s.next.phase is Done
        }),
{
}

/// Law: a provisioning pass that reaches its cleanup sweep and succeeds
/// returns the expected binary path and records it in the cache slot.
pub proof fn lemma_successful_provisioning_caches_result(
    cache: Option<Seq<char>>,
    os: Os,
    arch: Arch,
    binary_path: Seq<char>,
)
    ensures
        ({
            let r = ResolutionView { os, arch, phase: PhaseView::Prune { binary_path } };
            let s = step_model(cache, r, EventView::PruneFinished { result: Ok(()) });
            &&& s.action == (ActionView::Finish { result: Ok(binary_path) })
            &&& s.cache == Some(binary_path)
            &&& s.next.phase is Done
        }),
{
}

/// Law: when the fetched release holds no asset that carries the tool prefix
/// and the platform's suffix, the resolution fails at once, and the error
/// names that exact suffix.
pub proof fn lemma_missing_asset_fails_with_suffix(
    cache: Option<Seq<char>>,
    os: Os,
    arch: Arch,
    suffix: Seq<char>,
    kind: DownloadKind,
    rel: ReleaseView,
)
    requires
        forall|j: int|
            0 <= j < rel.assets.len() ==> !spec_asset_matches(
                #[trigger] rel.assets[j].name,
                suffix,
            ),
    ensures
        ({
            let r = ResolutionView { os, arch, phase: PhaseView::Release { suffix, kind } };
            let s = step_model(cache, r, EventView::ReleaseFetched { result: Ok(rel) });
            &&& s.action == (ActionView::Finish {
                result: Err(ErrorView::NoMatchingAsset { suffix }),
            })
            &&& s.cache == cache
        }),
{
    lemma_first_match_from_characterizes(rel.assets, suffix, 0);
}

/// Law: when the fetched release does hold a matching asset, the machine
/// derives the documented version directory and binary path from the release
/// version and asks for the filesystem check of that path; the download, if
/// one follows, targets the first matching asset.
pub proof fn lemma_matching_asset_checks_documented_binary_path(
    cache: Option<Seq<char>>,
    os: Os,
    arch: Arch,
    suffix: Seq<char>,
    kind: DownloadKind,
    rel: ReleaseView,
    i: int,
)
    requires
        spec_select_asset(rel.assets, suffix) == Some(i),
    ensures
        ({
            let r = ResolutionView { os, arch, phase: PhaseView::Release { suffix, kind } };
            let s = step_model(cache, r, EventView::ReleaseFetched { result: Ok(rel) });
            let version_dir = spec_version_dir(rel.version);
            let binary_path = spec_binary_path(version_dir, spec_binary_name(os));
            &&& 0 <= i < rel.assets.len()
            &&& spec_asset_matches(rel.assets[i].name, suffix)
            &&& s.action == (ActionView::StatBinary { path: binary_path })
            &&& s.next.phase matches PhaseView::BinaryCheck {
                kind: k,
                url,
                version_dir: vd,
                binary_path: bp,
                download_path: dp,
            } && k == kind && url == rel.assets[i].download_url && vd == version_dir && bp
                == binary_path
            &&& s.cache == cache
        }),
{
    lemma_first_match_from_characterizes(rel.assets, suffix, 0);
}

/// Law: a decompression step that exits with a nonzero status ends the
/// resolution with an error naming the archive path and that status; the
/// cache slot is left alone, so the failed pass leaves no trusted path
/// behind.
pub proof fn lemma_nonzero_decompression_status_fails(
    cache: Option<Seq<char>>,
    os: Os,
    arch: Arch,
    version_dir: Seq<char>,
    binary_path: Seq<char>,
    download_path: Seq<char>,
    status: i32,
)
    requires
        status != 0,
    ensures
        ({
            let r = ResolutionView {
                os,
                arch,
                phase: PhaseView::Decompress { version_dir, binary_path, download_path },
            };
            let s = step_model(
                cache,
                r,
                EventView::DecompressFinished {
                    outcome: crate::model::DecompressOutcomeView::Exited { status },
                },
            );
            &&& s.action == (ActionView::Finish {
                result: Err(ErrorView::DecompressFailed { archive_path: download_path, status }),
            })
            &&& s.cache == cache
            &&& s.next.phase is Done
        }),
{
}

/// Law (idempotent second resolution): with the cache slot filled and its
/// file still present, a resolution that misses the user path finishes from
/// the cache in two steps; none of its actions reaches the network, and the
/// cache slot is unchanged.
pub proof fn lemma_second_resolution_is_quiet(
    cache: Option<Seq<char>>,
    os: Os,
    arch: Arch,
    c: Seq<char>,
)
    requires
        cache == Some(c),
    ensures
        ({
            let (r0, a0) = start_model(os, arch);
            let s1 = step_model(cache, r0, EventView::WhichResult { found: None::<Seq<char>> });
            let s2 = step_model(s1.cache, s1.next, EventView::CacheFileIsFile { is_file: true });
            &&& !is_network_action(a0)
            &&& !is_network_action(s1.action)
            &&& !is_network_action(s2.action)
            &&& s1.action == (ActionView::StatCachedFile { path: c })
            &&& s2.action == (ActionView::Finish { result: Ok(c) })
            &&& s2.cache == cache
        }),
{
}

} // verus!
