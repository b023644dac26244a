//! Release metadata of the upstream project and the selection of the one
//! asset that serves a platform.

use vstd::prelude::*;

use crate::strutil::spec_ends_with;
use crate::strutil::spec_starts_with;
use crate::strutil::str_ends_with;
use crate::strutil::str_starts_with;

verus! {

/// One downloadable artifact of a release.
#[derive(Debug, PartialEq, Eq)]
pub struct Asset {
    pub name: String,
    pub download_url: String,
}

/// Mathematical image of an [`Asset`].
pub struct AssetView {
    pub name: Seq<char>,
    pub download_url: Seq<char>,
}

impl View for Asset {
    type V = AssetView;

    open spec fn view(&self) -> AssetView {
        AssetView { name: self.name@, download_url: self.download_url@ }
    }
}

impl DeepView for Asset {
    type V = AssetView;

    open spec fn deep_view(&self) -> AssetView {
        self@
    }
}

/// The latest published release of the upstream project, fetched fresh on
/// every provisioning pass.
#[derive(Debug, PartialEq, Eq)]
pub struct ReleaseInfo {
    pub version: String,
    pub assets: Vec<Asset>,
}

/// Mathematical image of a [`ReleaseInfo`].
pub struct ReleaseView {
    pub version: Seq<char>,
    pub assets: Seq<AssetView>,
}

impl View for ReleaseInfo {
    type V = ReleaseView;

    open spec fn view(&self) -> ReleaseView {
        ReleaseView { version: self.version@, assets: self.assets.deep_view() }
    }
}

/// The fixed prefix a usable asset name must carry.
pub open spec fn spec_asset_prefix() -> Seq<char> {
    "dhall-lsp-server"@
}

/// An asset name serves the platform when it carries the tool-name prefix and
/// the platform's suffix.
pub open spec fn spec_asset_matches(name: Seq<char>, suffix: Seq<char>) -> bool {
    spec_starts_with(name, spec_asset_prefix()) && spec_ends_with(name, suffix)
}

/// Index of the first matching asset at or after position `i`, if any.
pub open spec fn spec_first_match_from(assets: Seq<AssetView>, suffix: Seq<char>, i: int) -> Option<
    int,
>
    decreases assets.len() - i,
{
    if i < 0 || i >= assets.len() {
        None
    } else if spec_asset_matches(assets[i].name, suffix) {
        Some(i)
    } else {
        spec_first_match_from(assets, suffix, i + 1)
    }
}

/// Index of the first asset whose name matches the platform's suffix.
pub open spec fn spec_select_asset(assets: Seq<AssetView>, suffix: Seq<char>) -> Option<int> {
    spec_first_match_from(assets, suffix, 0)
}

/// A selected index lies in bounds, its asset matches, and nothing before it
/// (from the scan's start) does.
pub proof fn lemma_first_match_from_characterizes(assets: Seq<AssetView>, suffix: Seq<char>, i: int)
    requires
        0 <= i,
    ensures
        spec_first_match_from(assets, suffix, i) matches Some(k) ==> i <= k < assets.len()
            && spec_asset_matches(assets[k].name, suffix) && (forall|j: int|
            i <= j < k ==> !spec_asset_matches(#[trigger] assets[j].name, suffix)),
        spec_first_match_from(assets, suffix, i) is None ==> forall|j: int|
            i <= j < assets.len() ==> !spec_asset_matches(#[trigger] assets[j].name, suffix),
    decreases assets.len() - i,
{
    if 0 <= i < assets.len() && !spec_asset_matches(assets[i].name, suffix) {
        lemma_first_match_from_characterizes(assets, suffix, i + 1);
    }
}

/// Whether this asset name serves the platform suffix.
pub fn asset_name_matches(name: &str, suffix: &str) -> (r: bool)
    ensures
        r == spec_asset_matches(name@, suffix@),
{
    str_starts_with(name, "dhall-lsp-server") && str_ends_with(name, suffix)
}

/// Finds the first asset whose name starts with the tool-name prefix and ends
/// with the platform's suffix, returning its index.
pub fn select_asset(assets: &Vec<Asset>, suffix: &str) -> (r: Option<usize>)
    ensures
        match r {
            Some(i) => i < assets@.len() && spec_select_asset(assets.deep_view(), suffix@)
                == Some(i as int),
            None => spec_select_asset(assets.deep_view(), suffix@) is None,
        },
{
    let ghost av = assets.deep_view();
    let mut i: usize = 0;
    while i < assets.len()
        invariant
            i <= assets@.len(),
            av == assets.deep_view(),
            av.len() == assets@.len(),
            spec_first_match_from(av, suffix@, 0) == spec_first_match_from(av, suffix@, i as int),
        decreases assets@.len() - i,
    {
        proof {
            assert(av[i as int] == assets@[i as int].deep_view());
        }
        if asset_name_matches(assets[i].name.as_str(), suffix) {
            proof {
                assert(spec_first_match_from(av, suffix@, i as int) == Some(i as int));
            }
            return Some(i);
        }
        i += 1;
    }
    None
}

} // verus!
