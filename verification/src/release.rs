//! Release metadata and platform-asset selection.
//!
//! A release is the deserialized form of the release-listing endpoint's
//! response: an opaque tag and an ordered list of named, downloadable
//! assets. Selection picks the first asset whose name equals the current
//! platform's binary name, exactly and case-sensitively.

use vstd::prelude::*;

use crate::error::DownloadError;
use crate::text::str_eq_str;

verus! {

/// A named downloadable file attached to a published release.
#[derive(Debug, Clone)]
pub struct ReleaseAsset {
    pub name: String,
    pub download_url: String,
}

/// A published release: an opaque version tag and its assets, in the
/// order the endpoint listed them.
#[derive(Debug, Clone)]
pub struct Release {
    pub tag_name: String,
    pub assets: Vec<ReleaseAsset>,
}

/// Index of the first asset whose name is `name`, if any.
pub open spec fn selected_asset(assets: Seq<ReleaseAsset>, name: Seq<char>) -> Option<int>
    decreases assets.len(),
{
    if assets.len() == 0 {
        Option::None
    } else if assets[0].name@ == name {
        Option::Some(0)
    } else {
        match selected_asset(assets.drop_first(), name) {
            Option::Some(i) => Option::Some(i + 1),
            Option::None => Option::None,
        }
    }
}

/// What `selected_asset` picks: the first exact name match when one
/// exists, and nothing exactly when no asset name matches.
pub proof fn lemma_selected_asset_characterization(assets: Seq<ReleaseAsset>, name: Seq<char>)
    ensures
        match selected_asset(assets, name) {
            Option::Some(i) => 0 <= i < assets.len() && assets[i].name@ == name && forall|j: int|
                0 <= j < i ==> (#[trigger] assets[j].name@) != name,
            Option::None => forall|j: int|
                0 <= j < assets.len() ==> (#[trigger] assets[j].name@) != name,
        },
    decreases assets.len(),
{
    if assets.len() > 0 {
        let rest = assets.drop_first();
        lemma_selected_asset_characterization(rest, name);
        if assets[0].name@ != name {
            match selected_asset(rest, name) {
                Option::Some(i) => {
                    assert(rest[i] == assets[i + 1]);
                    assert forall|j: int| 0 <= j < i + 1 implies (#[trigger] assets[j].name@)
                        != name by {
                        if j >= 1 {
                            assert(assets[j] == rest[j - 1]);
                            assert(rest[j - 1].name@ != name);
                        }
                    }
                },
                Option::None => {
                    assert forall|j: int| 0 <= j < assets.len() implies (#[trigger] assets[j].name@)
                        != name by {
                        if j >= 1 {
                            assert(assets[j] == rest[j - 1]);
                            assert(rest[j - 1].name@ != name);
                        }
                    }
                },
            }
        }
    }
}

/// A release check is idempotent: selection is a function of the
/// release's asset names and the requested name alone, so repeated
/// checks of an unchanged release agree; and where no asset name matches,
/// every check comes out empty — never a partial or cached success.
pub proof fn lemma_release_check_idempotent(assets: Seq<ReleaseAsset>, name: Seq<char>)
    requires
        forall|j: int| 0 <= j < assets.len() ==> (#[trigger] assets[j].name@) != name,
    ensures
        selected_asset(assets, name) is None,
    decreases assets.len(),
{
    if assets.len() > 0 {
        let rest = assets.drop_first();
        assert forall|j: int| 0 <= j < rest.len() implies (#[trigger] rest[j].name@) != name by {
            assert(rest[j] == assets[j + 1]);
            assert(assets[j + 1].name@ != name);
        }
        lemma_release_check_idempotent(rest, name);
    }
}

/// Picks the release asset for the expected binary name: the index of the
/// first asset whose name equals `bin_name`, or the not-found error,
/// carrying that name, when no asset matches.
pub fn select_asset(release: &Release, bin_name: &str) -> (r: Result<usize, DownloadError>)
    ensures
        r matches Ok(i) ==> selected_asset(release.assets@, bin_name@) == Option::Some(i as int),
        r is Err <==> selected_asset(release.assets@, bin_name@) is None,
        r matches Err(e) ==> (e matches DownloadError::AssetNotFound { bin_name: b } && b@
            == bin_name@),
{
    proof {
        lemma_selected_asset_characterization(release.assets@, bin_name@);
    }
    let n = release.assets.len();
    let mut i: usize = 0;
    while i < n
        invariant
            0 <= i <= n,
            n == release.assets@.len(),
            forall|j: int| 0 <= j < i ==> (#[trigger] release.assets@[j].name@) != bin_name@,
            match selected_asset(release.assets@, bin_name@) {
                Option::Some(k) => 0 <= k < n && release.assets@[k].name@ == bin_name@
                    && forall|j: int| 0 <= j < k ==> (#[trigger] release.assets@[j].name@)
                    != bin_name@,
                Option::None => forall|j: int|
                    0 <= j < n ==> (#[trigger] release.assets@[j].name@) != bin_name@,
            },
        decreases n - i,
    {
        if str_eq_str(release.assets[i].name.as_str(), bin_name) {
            return Ok(i);
        }
        i = i + 1;
    }
    Err(DownloadError::AssetNotFound { bin_name: String::from_str(bin_name) })
}

} // verus!
