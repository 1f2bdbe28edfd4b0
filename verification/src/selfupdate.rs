//! Self-update staging and finalization.
//!
//! An update is staged beside the running executable under the name
//! `tmp_<binary>`; a later process start, launched with the self-update
//! flag, promotes the staged file by renaming it over `<binary>`. The
//! sequencer walks three states — idle, staging, pending restart — and
//! hands the application the concrete download and rename steps to carry
//! out.

use vstd::prelude::*;

use crate::error::DownloadError;
use crate::release::{lemma_selected_asset_characterization, select_asset, selected_asset, Release};

verus! {

/// Name under which an update for the binary `bin` is staged.
pub open spec fn staged_name(bin: Seq<char>) -> Seq<char> {
    "tmp_"@ + bin
}

/// Name a staged file finalizes to: the file's own name without the
/// `tmp_` prefix, or nothing when the name carries no such prefix.
pub open spec fn finalize_target(name: Seq<char>) -> Option<Seq<char>> {
    if name.len() >= 4 && name.subrange(0, 4) == "tmp_"@ {
        Option::Some(name.skip(4))
    } else {
        Option::None
    }
}

/// Staging then finalizing restores the binary's own name: the staged
/// file for `bin` finalizes exactly to `bin`, and its staged name differs
/// from `bin`, so the rename ends the staged name's separate existence.
pub proof fn lemma_stage_finalize_round_trip(bin: Seq<char>)
    ensures
        finalize_target(staged_name(bin)) == Option::Some(bin),
        staged_name(bin) != bin,
{
    reveal_strlit("tmp_");
    assert(staged_name(bin).subrange(0, 4) =~= "tmp_"@);
    assert(staged_name(bin).skip(4) =~= bin);
    assert(staged_name(bin).len() == bin.len() + 4);
}

/// Builds the staged file's name, `tmp_` before the binary name.
pub fn temp_name(bin_name: &str) -> (r: String)
    ensures
        r@ == staged_name(bin_name@),
{
    let mut s = String::from_str("tmp_");
    s.append(bin_name);
    s
}

/// Splits a staged file's name into the rename to perform at the next
/// start: the target name without the `tmp_` prefix, or nothing when the
/// name is not a staged one.
pub fn finalize_name(name: &str) -> (r: Option<String>)
    ensures
        r is Some <==> finalize_target(name@) is Some,
        r matches Some(d) ==> finalize_target(name@) == Option::Some(d@),
{
    proof {
        reveal_strlit("tmp_");
    }
    let n = name.unicode_len();
    if n < 4 {
        return Option::None;
    }
    if name.get_char(0) != 't' || name.get_char(1) != 'm' || name.get_char(2) != 'p'
        || name.get_char(3) != '_' {
        proof {
            assert(name@.subrange(0, 4) != "tmp_"@) by {
                if name@.subrange(0, 4) == "tmp_"@ {
                    assert(name@[0] == name@.subrange(0, 4)[0]);
                    assert(name@[1] == name@.subrange(0, 4)[1]);
                    assert(name@[2] == name@.subrange(0, 4)[2]);
                    assert(name@[3] == name@.subrange(0, 4)[3]);
                }
            }
        }
        return Option::None;
    }
    proof {
        assert(name@.subrange(0, 4) =~= "tmp_"@);
        assert(name@.subrange(4, n as int) =~= name@.skip(4));
    }
    let rest = name.substring_char(4, n);
    Option::Some(rest.to_owned())
}

/// The concrete steps of one staged update: fetch `download_url` and save
/// it beside the current executable under `temp_name`.
pub struct UpdatePlan {
    pub download_url: String,
    pub temp_name: String,
}

/// Plans the download of the latest release's matching binary: the first
/// asset named `bin_name` is fetched to the staged name `tmp_<bin_name>`,
/// and a release without such an asset yields the not-found error.
pub fn plan_update(release: &Release, bin_name: &str) -> (r: Result<UpdatePlan, DownloadError>)
    ensures
        r matches Ok(p) ==> (selected_asset(release.assets@, bin_name@) matches Some(i)
            && p.download_url@ == release.assets@[i].download_url@ && p.temp_name@ == staged_name(
            bin_name@,
        )),
        r is Err <==> selected_asset(release.assets@, bin_name@) is None,
        r matches Err(e) ==> (e matches DownloadError::AssetNotFound { bin_name: b } && b@
            == bin_name@),
{
    proof {
        lemma_selected_asset_characterization(release.assets@, bin_name@);
    }
    let idx = match select_asset(release, bin_name) {
        Ok(i) => i,
        Err(e) => { return Err(e); },
    };
    let url = release.assets[idx].download_url.clone();
    Ok(UpdatePlan { download_url: url, temp_name: temp_name(bin_name) })
}

/// Where the self-update sequencer stands.
#[derive(Clone, Copy, Debug, PartialEq, Eq, Structural)]
pub enum UpdateStage {
    Idle,
    Staging,
    PendingRestart,
}

/// The self-update sequencer: idle until a check is requested, staging
/// while the asset is downloaded and marked executable, pending restart
/// once the staged file is in place, and idle again after the rename at
/// the next process start.
pub struct UpdateSequencer {
    pub stage: UpdateStage,
    pub staged: Option<String>,
}

impl UpdateSequencer {
    /// Outside the idle state the sequencer knows its staged file, and
    /// that file's name carries the `tmp_` prefix a finalize needs.
    pub open spec fn wf(self) -> bool {
        match self.stage {
            UpdateStage::Idle => self.staged is None,
            _ => self.staged matches Some(s) && finalize_target(s@) is Some,
        }
    }

    /// A sequencer with no update in flight.
    pub fn new() -> (r: Self)
        ensures
            r.stage == UpdateStage::Idle,
            r.wf(),
    {
        UpdateSequencer { stage: UpdateStage::Idle, staged: Option::None }
    }

    /// Idle to staging: picks the asset for `bin_name` from the release
    /// and hands back the download to perform. With no matching asset the
    /// sequencer stays idle and the not-found error is surfaced.
    pub fn begin_staging(&mut self, release: &Release, bin_name: &str) -> (r: Result<
        UpdatePlan,
        DownloadError,
    >)
        requires
            old(self).stage == UpdateStage::Idle,
            old(self).wf(),
        ensures
            final(self).wf(),
            r matches Ok(p) ==> final(self).stage == UpdateStage::Staging && (final(self).staged
                matches Some(s) && s@ == p.temp_name@) && (selected_asset(
                release.assets@,
                bin_name@,
            ) matches Some(i) && p.download_url@ == release.assets@[i].download_url@
                && p.temp_name@ == staged_name(bin_name@)),
            r is Err ==> final(self).stage == UpdateStage::Idle && final(self).staged is None,
            r is Err <==> selected_asset(release.assets@, bin_name@) is None,
            r matches Err(e) ==> (e matches DownloadError::AssetNotFound { bin_name: b } && b@
                == bin_name@),
    {
        let plan = match plan_update(release, bin_name) {
            Ok(p) => p,
            Err(e) => { return Err(e); },
        };
        proof {
            lemma_stage_finalize_round_trip(bin_name@);
        }
        self.stage = UpdateStage::Staging;
        self.staged = Option::Some(plan.temp_name.clone());
        Ok(plan)
    }

    /// Staging to pending restart: the staged file is written and, off
    /// Windows, marked executable; nothing remains but the rename at the
    /// next start.
    pub fn staging_complete(&mut self)
        requires
            old(self).stage == UpdateStage::Staging,
            old(self).wf(),
        ensures
            final(self).stage == UpdateStage::PendingRestart,
            final(self).staged == old(self).staged,
            final(self).wf(),
    {
        self.stage = UpdateStage::PendingRestart;
    }

    /// Pending restart to idle: the rename to carry out, staged name
    /// first, target name second. The target is the staged name without
    /// its `tmp_` prefix, so the rename deletes the staged identity.
    pub fn finalize(&mut self) -> (r: (String, String))
        requires
            old(self).stage == UpdateStage::PendingRestart,
            old(self).wf(),
        ensures
            final(self).stage == UpdateStage::Idle,
            final(self).wf(),
            old(self).staged matches Some(s) && r.0@ == s@ && finalize_target(s@) == Option::Some(
                r.1@,
            ),
    {
        let staged = match &self.staged {
            Option::Some(s) => s.clone(),
            Option::None => unreached(),
        };
        let target = match finalize_name(staged.as_str()) {
            Option::Some(t) => t,
            Option::None => unreached(),
        };
        self.stage = UpdateStage::Idle;
        self.staged = Option::None;
        (staged, target)
    }
}

} // verus!
