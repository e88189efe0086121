//! Planning a self-update: which version is wanted, whether moving to it is
//! allowed, and which release and asset carry it.

use vstd::prelude::*;
use vstd::string::StrSliceExecFns;
use crate::release::{
    asset_matches, find_release, has_release, lemma_release_depends_only_on_matches, single_release, is_first_asset, is_first_release, select_asset, Architecture,
    LookupError, Release, ReleaseAsset,
};
use crate::text::{before_first, chars_of, find_char};
use crate::version::{
    is_major_bump, major_bump, strip_v, version_text, VersionEnum, VersionModel,
};

verus! {

/// Why an update stopped, one cause per step.
#[derive(PartialEq, Eq, Structural, Debug, Clone, Copy)]
pub enum UpdateError {
    /// The move raises the major version; it has to be done by hand.
    MajorVersionBlocked,
    /// The release index could not give what was asked of it.
    Lookup(LookupError),
    /// The asset could not be downloaded in full.
    Download,
    /// The archive could not be extracted.
    Extract,
    /// The running executable could not be replaced.
    Install,
    /// The environment file named for the hand-off does not exist.
    EnvFileMissing,
    /// The new executable could not be started.
    Handoff,
}

/// The platform that builds are selected for.
pub open spec fn platform_text() -> Seq<char> {
    "linux"@
}

pub fn platform() -> (r: &'static str)
    ensures
        r@ == platform_text(),
{
    "linux"
}

/// The latest-release lookup's outcome, as values.
pub open spec fn latest_view(latest: Option<Result<String, LookupError>>) -> Option<Result<Seq<char>, LookupError>> {
    match latest {
        Some(Ok(t)) => Some(Ok(t@)),
        Some(Err(e)) => Some(Err(e)),
        None => None,
    }
}

/// The version string an update aims at. A specific version is written out;
/// `nightly` stands for itself; `latest` is the tag the latest-release lookup
/// reported, without a leading `v`. A `latest` request with no lookup made
/// counts as one that found nothing.
pub open spec fn wanted_model(spec: VersionModel, latest: Option<Result<Seq<char>, LookupError>>) -> Result<Seq<char>, UpdateError> {
    match spec {
        VersionModel::Specific(p) => Ok(version_text(p)),
        VersionModel::Nightly => Ok("nightly"@),
        VersionModel::Latest => match latest {
            Some(Ok(tag)) => Ok(strip_v(tag)),
            Some(Err(e)) => Err(UpdateError::Lookup(e)),
            None => Err(UpdateError::Lookup(LookupError::NotFound)),
        },
    }
}

/// A `latest` request aims at the reported tag, without its `v`, and the
/// release it settles on depends on that tag alone: not on the order of the
/// release list, nor on its other entries such as pre-releases.
pub proof fn lemma_latest_depends_on_tag(tag: Seq<char>, rs1: Seq<Release>, rs2: Seq<Release>)
    requires
        forall|x: Release| (rs1.contains(x) && x.version@ == strip_v(tag)) <==> (rs2.contains(x) && x.version@ == strip_v(tag)),
        single_release(rs1, strip_v(tag)),
    ensures
        wanted_model(VersionModel::Latest, Some(Ok(tag))) == Ok::<Seq<char>, UpdateError>(strip_v(tag)),
        has_release(rs1, strip_v(tag)) == has_release(rs2, strip_v(tag)),
        forall|i: int, k: int| is_first_release(rs1, strip_v(tag), i) && is_first_release(rs2, strip_v(tag), k)
            ==> rs1[i] == rs2[k],
{
    lemma_release_depends_only_on_matches(rs1, rs2, strip_v(tag));
}

/// Drops one leading `v` or `V`.
pub fn strip_v_prefix(s: &str) -> (r: &str)
    ensures
        r@ == strip_v(s@),
{
    let n = s.unicode_len();
    if n > 0 && (s.get_char(0) == 'v' || s.get_char(0) == 'V') {
        let r = s.substring_char(1, n);
        assert(r@ =~= strip_v(s@));
        r
    } else {
        s
    }
}

/// Whether a request needs the latest-release lookup before it can be
/// resolved.
pub fn needs_latest_lookup(spec: &VersionEnum) -> (r: bool)
    ensures
        r == (spec@ == VersionModel::Latest),
{
    match spec {
        VersionEnum::Latest => true,
        _ => false,
    }
}

/// Resolves a request to the version string the update aims at.
pub fn wanted_version(spec: &VersionEnum, latest: Option<Result<String, LookupError>>) -> (r: Result<String, UpdateError>)
    ensures
        match (r, wanted_model(spec@, latest_view(latest))) {
            (Ok(w), Ok(m)) => w@ == m,
            (Err(e), Err(f)) => e == f,
            _ => false,
        },
{
    match spec {
        VersionEnum::Version(v) => Ok(v.to_string()),
        VersionEnum::Nightly => Ok("nightly".to_owned()),
        VersionEnum::Latest => match latest {
            Some(Ok(tag)) => Ok(strip_v_prefix(tag.as_str()).to_owned()),
            Some(Err(e)) => Err(UpdateError::Lookup(e)),
            None => Err(UpdateError::Lookup(LookupError::NotFound)),
        },
    }
}

/// The compatibility gate: an update that raises the major version of the
/// installed one (read without a leading `v`) is refused.
pub fn check_compatibility(installed: &str, wanted: &str) -> (r: Result<(), UpdateError>)
    ensures
        r is Err <==> major_bump(strip_v(installed@), wanted@),
        r matches Err(e) ==> e == UpdateError::MajorVersionBlocked,
{
    if is_major_bump(strip_v_prefix(installed), wanted) {
        Err(UpdateError::MajorVersionBlocked)
    } else {
        Ok(())
    }
}

/// What an update will install: the release and its asset for this machine.
#[derive(Debug)]
pub struct UpdatePlan<'a> {
    pub release: &'a Release,
    pub asset: &'a ReleaseAsset,
}

/// `plan` is the first release with version `w` and that release's first
/// asset for `arch` on the platform.
pub open spec fn is_plan_for(rs: Seq<Release>, w: Seq<char>, arch: Architecture, release: Release, asset: ReleaseAsset) -> bool {
    (exists|i: int| is_first_release(rs, w, i) && rs[i] == release)
        && exists|k: int| is_first_asset(release.assets@, arch, platform_text(), k)
            && release.assets@[k] == asset
}

/// No asset of `rel` is built for `arch` on the platform.
pub open spec fn no_asset_for(rel: Release, arch: Architecture) -> bool {
    forall|k: int| 0 <= k < rel.assets@.len() ==> !asset_matches(#[trigger] rel.assets@[k], arch, platform_text())
}

/// The first release with version `w` has no asset for `arch`.
pub open spec fn first_release_lacks_asset(rs: Seq<Release>, w: Seq<char>, arch: Architecture) -> bool {
    forall|i: int| is_first_release(rs, w, i) ==> no_asset_for(rs[i], arch)
}

/// Plans an update, in order: resolve the wanted version, pass the
/// compatibility gate, find the release, select the asset. The first step
/// that fails decides the error; a plan exists only when all four succeed.
pub fn plan_update<'a>(
    spec: &VersionEnum,
    installed: &str,
    latest: Option<Result<String, LookupError>>,
    releases: &'a Vec<Release>,
    arch: Architecture,
) -> (r: Result<UpdatePlan<'a>, UpdateError>)
    ensures
        wanted_model(spec@, latest_view(latest)) matches Err(e) ==> r == Err::<UpdatePlan<'a>, UpdateError>(e),
        wanted_model(spec@, latest_view(latest)) matches Ok(w) && major_bump(strip_v(installed@), w)
            ==> r == Err::<UpdatePlan<'a>, UpdateError>(UpdateError::MajorVersionBlocked),
        wanted_model(spec@, latest_view(latest)) matches Ok(w) && !major_bump(strip_v(installed@), w)
            && !has_release(releases@, w)
            ==> r == Err::<UpdatePlan<'a>, UpdateError>(UpdateError::Lookup(LookupError::VersionNotFound)),
        wanted_model(spec@, latest_view(latest)) matches Ok(w) && !major_bump(strip_v(installed@), w)
            && has_release(releases@, w) ==> match r {
                Ok(plan) => is_plan_for(releases@, wanted_model(spec@, latest_view(latest))->Ok_0, arch, *plan.release, *plan.asset),
                Err(e) => e == UpdateError::Lookup(LookupError::AssetNotFound)
                    && first_release_lacks_asset(releases@, wanted_model(spec@, latest_view(latest))->Ok_0, arch),
            },
{
    let wanted = match wanted_version(spec, latest) {
        Ok(w) => w,
        Err(e) => return Err(e),
    };
    match check_compatibility(installed, wanted.as_str()) {
        Ok(()) => {},
        Err(e) => return Err(e),
    }
    let release = match find_release(releases, wanted.as_str()) {
        Ok(rel) => rel,
        Err(e) => return Err(UpdateError::Lookup(e)),
    };
    let target_platform = platform();
    let asset = match select_asset(release, arch, target_platform) {
        Ok(a) => a,
        Err(e) => {
            proof {
                assert forall|i: int| is_first_release(releases@, wanted@, i)
                    implies no_asset_for(releases@[i], arch) by {
                    let j = choose|j: int| is_first_release(releases@, wanted@, j) && releases@[j] == *release;
                    if i < j {
                    } else if j < i {
                    }
                    assert(releases@[i] == *release);
                    assert forall|k: int| 0 <= k < release.assets@.len()
                        implies !asset_matches(#[trigger] release.assets@[k], arch, platform_text()) by {
                        if asset_matches(release.assets@[k], arch, platform_text()) {
                            assert(exists|k2: int| 0 <= k2 < release.assets@.len()
                                && asset_matches(release.assets@[k2], arch, platform_text()));
                        }
                    }
                }
                assert(first_release_lacks_asset(releases@, wanted@, arch));
                assert(wanted_model(spec@, latest_view(latest)) == Ok::<Seq<char>, UpdateError>(wanted@));
            }
            return Err(UpdateError::Lookup(e));
        },
    };
    let plan = UpdatePlan { release, asset };
    assert(exists|i: int| is_first_release(releases@, wanted@, i) && releases@[i] == *release);
    assert(exists|k: int| is_first_asset(release.assets@, arch, platform_text(), k) && release.assets@[k] == *asset);
    assert(is_plan_for(releases@, wanted@, arch, *plan.release, *plan.asset));
    assert(wanted_model(spec@, latest_view(latest)) == Ok::<Seq<char>, UpdateError>(wanted@));
    Ok(plan)
}

/// The name of the executable an asset's archive unpacks to: the asset's
/// name up to its first `.`.
pub fn binary_name(asset_name: &str) -> (r: String)
    ensures
        r@ == before_first(asset_name@, '.'),
{
    let x = chars_of(asset_name);
    let end = match find_char(&x, '.') {
        Some(i) => i,
        None => x.len(),
    };
    let r = asset_name.substring_char(0, end).to_owned();
    assert(r@ =~= before_first(asset_name@, '.'));
    r
}

/// One step of carrying out a plan.
#[derive(PartialEq, Eq, Structural, Clone, Copy, Debug)]
pub enum UpdateStep {
    /// Download the asset into a temporary file beside the executable.
    Download,
    /// Extract the archive.
    Extract,
    /// Mark the new executable runnable, swap it in for the running one and
    /// remove the extracted copy, whether or not the swap succeeded.
    Install,
    /// Resolve the environment file to hand on, where one was named.
    LocateEnvFile,
    /// Start the new executable with the forwarded arguments.
    Handoff,
}

/// Where carrying out a plan stands.
#[derive(PartialEq, Eq, Structural, Clone, Copy, Debug)]
pub enum UpdatePhase {
    Planned,
    Downloaded,
    Extracted,
    Installed,
    EnvFileLocated,
    HandedOff,
    Failed(UpdateError),
}

/// The step that follows `phase`, or `None` once the update is over.
pub open spec fn update_next_step(phase: UpdatePhase) -> Option<UpdateStep> {
    match phase {
        UpdatePhase::Planned => Some(UpdateStep::Download),
        UpdatePhase::Downloaded => Some(UpdateStep::Extract),
        UpdatePhase::Extracted => Some(UpdateStep::Install),
        UpdatePhase::Installed => Some(UpdateStep::LocateEnvFile),
        UpdatePhase::EnvFileLocated => Some(UpdateStep::Handoff),
        UpdatePhase::HandedOff => None,
        UpdatePhase::Failed(_) => None,
    }
}

/// Where a step leaves the update: the next phase, or the step's own error.
/// Nothing is retried.
pub open spec fn update_phase_after(step: UpdateStep, ok: bool) -> UpdatePhase {
    match step {
        UpdateStep::Download => if ok { UpdatePhase::Downloaded } else { UpdatePhase::Failed(UpdateError::Download) },
        UpdateStep::Extract => if ok { UpdatePhase::Extracted } else { UpdatePhase::Failed(UpdateError::Extract) },
        UpdateStep::Install => if ok { UpdatePhase::Installed } else { UpdatePhase::Failed(UpdateError::Install) },
        UpdateStep::LocateEnvFile => if ok { UpdatePhase::EnvFileLocated } else {
            UpdatePhase::Failed(UpdateError::EnvFileMissing)
        },
        UpdateStep::Handoff => if ok { UpdatePhase::HandedOff } else { UpdatePhase::Failed(UpdateError::Handoff) },
    }
}

/// The steps an update performs from `phase` when their outcomes come in the
/// order given.
pub open spec fn update_steps_run(phase: UpdatePhase, outcomes: Seq<bool>) -> Seq<UpdateStep>
    decreases outcomes.len(),
{
    if outcomes.len() == 0 {
        Seq::empty()
    } else {
        match update_next_step(phase) {
            None => Seq::empty(),
            Some(s) => seq![s] + update_steps_run(update_phase_after(s, outcomes[0]), outcomes.drop_first()),
        }
    }
}

/// Carrying out a plan, step by step.
#[derive(Debug)]
pub struct UpdateRun {
    pub phase: UpdatePhase,
}

impl UpdateRun {
    pub fn new() -> (r: UpdateRun)
        ensures
            r.phase == UpdatePhase::Planned,
    {
        UpdateRun { phase: UpdatePhase::Planned }
    }

    /// The step to perform now, or `None` when the update is over.
    pub fn next_step(&self) -> (r: Option<UpdateStep>)
        ensures
            r == update_next_step(self.phase),
    {
        match self.phase {
            UpdatePhase::Planned => Some(UpdateStep::Download),
            UpdatePhase::Downloaded => Some(UpdateStep::Extract),
            UpdatePhase::Extracted => Some(UpdateStep::Install),
            UpdatePhase::Installed => Some(UpdateStep::LocateEnvFile),
            UpdatePhase::EnvFileLocated => Some(UpdateStep::Handoff),
            UpdatePhase::HandedOff => None,
            UpdatePhase::Failed(_) => None,
        }
    }

    /// Records the outcome of the step that `next_step` named. With no step
    /// pending, the update is left as it is.
    pub fn record(&mut self, ok: bool)
        ensures
            final(self).phase == match update_next_step(old(self).phase) {
                Some(s) => update_phase_after(s, ok),
                None => old(self).phase,
            },
    {
        match self.next_step() {
            Some(s) => {
                self.phase = match s {
                    UpdateStep::Download => if ok { UpdatePhase::Downloaded } else { UpdatePhase::Failed(UpdateError::Download) },
                    UpdateStep::Extract => if ok { UpdatePhase::Extracted } else { UpdatePhase::Failed(UpdateError::Extract) },
                    UpdateStep::Install => if ok { UpdatePhase::Installed } else { UpdatePhase::Failed(UpdateError::Install) },
                    UpdateStep::LocateEnvFile => if ok { UpdatePhase::EnvFileLocated } else {
                        UpdatePhase::Failed(UpdateError::EnvFileMissing)
                    },
                    UpdateStep::Handoff => if ok { UpdatePhase::HandedOff } else { UpdatePhase::Failed(UpdateError::Handoff) },
                };
            },
            None => {},
        }
    }

    /// How the update ended, or `None` while it goes on.
    pub fn outcome(&self) -> (r: Option<Result<(), UpdateError>>)
        ensures
            r == match self.phase {
                UpdatePhase::HandedOff => Some(Ok(())),
                UpdatePhase::Failed(e) => Some(Err(e)),
                _ => None,
            },
    {
        match self.phase {
            UpdatePhase::HandedOff => Some(Ok(())),
            UpdatePhase::Failed(e) => Some(Err(e)),
            _ => None,
        }
    }
}

/// The steps of carrying out a plan, in order.
pub open spec fn update_steps_in_order() -> Seq<UpdateStep> {
    seq![
        UpdateStep::Download,
        UpdateStep::Extract,
        UpdateStep::Install,
        UpdateStep::LocateEnvFile,
        UpdateStep::Handoff,
    ]
}

/// The phase reached once the first `i` steps succeeded.
pub open spec fn phase_after_steps(i: int) -> UpdatePhase {
    if i == 0 {
        UpdatePhase::Planned
    } else if i == 1 {
        UpdatePhase::Downloaded
    } else if i == 2 {
        UpdatePhase::Extracted
    } else if i == 3 {
        UpdatePhase::Installed
    } else if i == 4 {
        UpdatePhase::EnvFileLocated
    } else {
        UpdatePhase::HandedOff
    }
}

proof fn lemma_update_fails_fast_from(i: int, outcomes: Seq<bool>, k: int)
    requires
        0 <= i <= k < 5,
        k - i < outcomes.len(),
        outcomes[k - i] == false,
        forall|j: int| 0 <= j < k - i ==> outcomes[j],
    ensures
        update_steps_run(phase_after_steps(i), outcomes) == update_steps_in_order().subrange(i, k + 1),
    decreases k - i,
{
    let rest = outcomes.drop_first();
    let s = update_steps_in_order()[i];
    assert(update_next_step(phase_after_steps(i)) == Some(s));
    if i == k {
        assert(update_phase_after(s, false) is Failed);
        assert(update_steps_run(update_phase_after(s, false), rest) =~= Seq::<UpdateStep>::empty());
        assert(update_steps_run(phase_after_steps(i), outcomes) =~= update_steps_in_order().subrange(i, k + 1));
    } else {
        assert(update_phase_after(s, true) == phase_after_steps(i + 1));
        assert forall|j: int| 0 <= j < k - (i + 1) implies rest[j] by {
            assert(outcomes[j + 1]);
        }
        lemma_update_fails_fast_from(i + 1, rest, k);
        assert(update_steps_run(phase_after_steps(i), outcomes) =~= update_steps_in_order().subrange(i, k + 1));
    }
}

/// Carrying out a plan is fail-fast: when the step at position `k` is the
/// first to fail, the steps up to it are performed in order and no later one
/// is.
pub proof fn lemma_update_fails_fast(outcomes: Seq<bool>, k: int)
    requires
        0 <= k < 5,
        k < outcomes.len(),
        outcomes[k] == false,
        forall|j: int| 0 <= j < k ==> outcomes[j],
    ensures
        update_steps_run(UpdatePhase::Planned, outcomes) == update_steps_in_order().take(k + 1),
{
    lemma_update_fails_fast_from(0, outcomes, k);
    assert(update_steps_in_order().take(k + 1) =~= update_steps_in_order().subrange(0, k + 1));
}

} // verus!
