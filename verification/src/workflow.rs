//! The order of the steps of a patch run and of a rollback, and the checks
//! that end a run early.
use vstd::prelude::*;

use crate::paths::{
    is_layout, FsPath, MarkTextPaths, MARKTEXT_DIR_NAME, MARKTEXT_DIR_PROGRAM, PROGRAMS_DIR, SEARCHED_DIRS,
};
use crate::patch::RENDERER_NOT_FOUND;
use crate::Error;

verus! {

broadcast use vstd::string::group_string_axioms;

/// Error text prefix: the installation has no `app.asar`; the path follows.
pub const ASAR_MISSING: &'static str = "app.asar не найден: ";

/// A step of a patch run.
#[derive(Clone, Copy, Debug, PartialEq, Eq, Structural)]
pub enum PatchStep {
    /// Check that the installation has `app.asar`.
    CheckAppAsar,
    /// Find the locale file.
    LocateLocale,
    /// Check that `npx` runs.
    CheckNpx,
    /// Copy `app.asar` to its backup, unless a backup exists.
    BackupAppAsar,
    /// Unpack `app.asar` into a temporary directory.
    ExtractAppAsar,
    /// Patch the main-process bundle.
    PatchMainBundle,
    /// Patch the renderer bundle with the language drop-down.
    PatchRendererBundle,
    /// Pack the temporary directory back into `app.asar`.
    PackAppAsar,
    /// Write the compact locale file into the installation.
    DeployLocale,
    /// Remove the temporary directory.
    RemoveUnpacked,
}

/// A step of a rollback.
#[derive(Clone, Copy, Debug, PartialEq, Eq, Structural)]
pub enum RollbackStep {
    /// Copy the backup over `app.asar`.
    RestoreAppAsar,
    /// Remove the locale file from the installation.
    RemoveLocale,
}

/// The steps of a patch run, in order; the run stops at the first step that
/// fails, with that step's error.
pub open spec fn patch_plan() -> Seq<PatchStep> {
    seq![
        PatchStep::CheckAppAsar,
        PatchStep::LocateLocale,
        PatchStep::CheckNpx,
        PatchStep::BackupAppAsar,
        PatchStep::ExtractAppAsar,
        PatchStep::PatchMainBundle,
        PatchStep::PatchRendererBundle,
        PatchStep::PackAppAsar,
        PatchStep::DeployLocale,
        PatchStep::RemoveUnpacked,
    ]
}

/// The steps of a rollback, in order; it stops at the first step that
/// fails.
pub open spec fn rollback_plan() -> Seq<RollbackStep> {
    seq![RollbackStep::RestoreAppAsar, RollbackStep::RemoveLocale]
}

/// What a run does next: run a step, or stop with the run's result.
#[derive(Debug)]
pub enum Progress<S> {
    /// Run this step.
    Run(S),
    /// The run is over, with this result.
    Stop(Result<(), Error>),
}

/// Where `step` stands in the patch plan.
pub open spec fn patch_step_index(step: PatchStep) -> int {
    match step {
        PatchStep::CheckAppAsar => 0,
        PatchStep::LocateLocale => 1,
        PatchStep::CheckNpx => 2,
        PatchStep::BackupAppAsar => 3,
        PatchStep::ExtractAppAsar => 4,
        PatchStep::PatchMainBundle => 5,
        PatchStep::PatchRendererBundle => 6,
        PatchStep::PackAppAsar => 7,
        PatchStep::DeployLocale => 8,
        PatchStep::RemoveUnpacked => 9,
    }
}

/// Where `step` stands in the rollback plan.
pub open spec fn rollback_step_index(step: RollbackStep) -> int {
    match step {
        RollbackStep::RestoreAppAsar => 0,
        RollbackStep::RemoveLocale => 1,
    }
}

/// What follows a step with the given outcome in a run that follows `plan`
/// (where `step` is at index `index`): the step's error ends the run; after
/// a success the next step of the plan runs, and after the last one the run
/// ends successfully.
pub open spec fn follows<S>(plan: Seq<S>, index: int, outcome: Result<(), Error>, p: Progress<S>) -> bool {
    match outcome {
        Err(e) => p matches Progress::Stop(Err(e2)) && e2 == e,
        Ok(()) => if index + 1 < plan.len() {
            p matches Progress::Run(next) && next == plan[index + 1]
        } else {
            p matches Progress::Stop(Ok(()))
        },
    }
}

/// Each step stands in the patch plan at its index.
pub proof fn lemma_patch_step_index(step: PatchStep)
    ensures
        0 <= patch_step_index(step) < patch_plan().len(),
        patch_plan()[patch_step_index(step)] == step,
{
}

/// Each step stands in the rollback plan at its index.
pub proof fn lemma_rollback_step_index(step: RollbackStep)
    ensures
        0 <= rollback_step_index(step) < rollback_plan().len(),
        rollback_plan()[rollback_step_index(step)] == step,
{
}

/// A failed step ends a run with that step's own error, whatever the plan
/// and the step; a successful step other than the last is followed by the
/// next step of the plan, and the last one ends the run successfully.
pub proof fn law_follows<S>(plan: Seq<S>, index: int, outcome: Result<(), Error>, p: Progress<S>)
    requires
        follows(plan, index, outcome, p),
    ensures
        outcome matches Err(e) ==> (p matches Progress::Stop(Err(e2)) && e2 == e),
        outcome is Ok && index + 1 < plan.len() ==> (p matches Progress::Run(next) && next == plan[index + 1]),
        outcome is Ok && index + 1 >= plan.len() ==> (p matches Progress::Stop(Ok(()))),
{
}

/// The patch plan runs every step once: it checks the installation, finds
/// the locale file and checks `npx` before anything is written, backs
/// `app.asar` up before it is unpacked, patches both bundles before
/// repacking, and deploys the locale file after repacking.
pub proof fn law_patch_order()
    ensures
        patch_plan().len() == 10,
        forall|s: PatchStep| #[trigger] patch_plan()[patch_step_index(s)] == s,
        forall|s: PatchStep| 0 <= #[trigger] patch_step_index(s) < 10,
        patch_step_index(PatchStep::CheckAppAsar) < patch_step_index(PatchStep::BackupAppAsar),
        patch_step_index(PatchStep::LocateLocale) < patch_step_index(PatchStep::BackupAppAsar),
        patch_step_index(PatchStep::CheckNpx) < patch_step_index(PatchStep::BackupAppAsar),
        patch_step_index(PatchStep::BackupAppAsar) < patch_step_index(PatchStep::ExtractAppAsar),
        patch_step_index(PatchStep::ExtractAppAsar) < patch_step_index(PatchStep::PatchMainBundle),
        patch_step_index(PatchStep::PatchMainBundle) < patch_step_index(PatchStep::PatchRendererBundle),
        patch_step_index(PatchStep::PatchRendererBundle) < patch_step_index(PatchStep::PackAppAsar),
        patch_step_index(PatchStep::PackAppAsar) < patch_step_index(PatchStep::DeployLocale),
        patch_step_index(PatchStep::DeployLocale) < patch_step_index(PatchStep::RemoveUnpacked),
{
    assert forall|s: PatchStep| #[trigger] patch_plan()[patch_step_index(s)] == s by {
        lemma_patch_step_index(s);
    }
    assert forall|s: PatchStep| 0 <= #[trigger] patch_step_index(s) < 10 by {
        lemma_patch_step_index(s);
    }
}

/// The first step of a patch run.
pub fn first_patch_step() -> (s: PatchStep)
    ensures
        s == patch_plan()[0],
{
    PatchStep::CheckAppAsar
}

/// What a patch run does after `step` ended with `outcome`.
pub fn after_patch_step(step: PatchStep, outcome: Result<(), Error>) -> (p: Progress<PatchStep>)
    ensures
        follows(patch_plan(), patch_step_index(step), outcome, p),
        outcome matches Err(e) ==> (p matches Progress::Stop(Err(e2)) && e2 == e),
        outcome is Ok ==> (p matches Progress::Stop(r) ==> (r is Ok && step == PatchStep::RemoveUnpacked)),
{
    match outcome {
        Err(e) => Progress::Stop(Err(e)),
        Ok(()) => match step {
            PatchStep::CheckAppAsar => Progress::Run(PatchStep::LocateLocale),
            PatchStep::LocateLocale => Progress::Run(PatchStep::CheckNpx),
            PatchStep::CheckNpx => Progress::Run(PatchStep::BackupAppAsar),
            PatchStep::BackupAppAsar => Progress::Run(PatchStep::ExtractAppAsar),
            PatchStep::ExtractAppAsar => Progress::Run(PatchStep::PatchMainBundle),
            PatchStep::PatchMainBundle => Progress::Run(PatchStep::PatchRendererBundle),
            PatchStep::PatchRendererBundle => Progress::Run(PatchStep::PackAppAsar),
            PatchStep::PackAppAsar => Progress::Run(PatchStep::DeployLocale),
            PatchStep::DeployLocale => Progress::Run(PatchStep::RemoveUnpacked),
            PatchStep::RemoveUnpacked => Progress::Stop(Ok(())),
        },
    }
}

/// The first step of a rollback.
pub fn first_rollback_step() -> (s: RollbackStep)
    ensures
        s == rollback_plan()[0],
{
    RollbackStep::RestoreAppAsar
}

/// What a rollback does after `step` ended with `outcome`.
pub fn after_rollback_step(step: RollbackStep, outcome: Result<(), Error>) -> (p: Progress<RollbackStep>)
    ensures
        follows(rollback_plan(), rollback_step_index(step), outcome, p),
        outcome matches Err(e) ==> (p matches Progress::Stop(Err(e2)) && e2 == e),
        outcome is Ok ==> (p matches Progress::Stop(r) ==> (r is Ok && step == RollbackStep::RemoveLocale)),
{
    match outcome {
        Err(e) => Progress::Stop(Err(e)),
        Ok(()) => match step {
            RollbackStep::RestoreAppAsar => Progress::Run(RollbackStep::RemoveLocale),
            RollbackStep::RemoveLocale => Progress::Stop(Ok(())),
        },
    }
}

/// The installation to work on: the given directory, or else the one that
/// `MarkTextPaths::detect` finds from `%LOCALAPPDATA%` and which of its
/// probes exist.
pub fn installation(
    given: Option<FsPath>,
    local_app_data: Option<&str>,
    user_installed: bool,
    machine_installed: bool,
) -> (res: Result<MarkTextPaths, Error>)
    ensures
        match given {
            Some(root) => res matches Ok(p) && is_layout(p, root@),
            None => match local_app_data {
                Some(d) if user_installed => res matches Ok(p) && is_layout(p, seq![d@, PROGRAMS_DIR@, MARKTEXT_DIR_NAME@]),
                _ => {
                    &&& machine_installed ==> (res matches Ok(p) && is_layout(p, seq![MARKTEXT_DIR_PROGRAM@]))
                    &&& !machine_installed ==> (res matches Err(Error::MarkTextNotFound(m)) && m@ == SEARCHED_DIRS@)
                },
            },
        },
{
    match given {
        Some(root) => Ok(MarkTextPaths::from_root(root)),
        None => MarkTextPaths::detect(local_app_data, user_installed, machine_installed),
    }
}

/// The check of `PatchStep::CheckAppAsar`: fails when `app.asar` does not
/// exist, naming the path as `shown`.
pub fn require_app_asar(exists: bool, shown: &str) -> (res: Result<(), Error>)
    ensures
        exists ==> res is Ok,
        !exists ==> (res matches Err(Error::MarkTextNotFound(m)) && m@ == ASAR_MISSING@ + shown@),
{
    if exists {
        Ok(())
    } else {
        let mut m = ASAR_MISSING.to_owned();
        vstd::string::StringExecFns::append(&mut m, shown);
        Err(Error::MarkTextNotFound(m))
    }
}

/// The check of `PatchStep::CheckNpx`: fails when `npx` does not run.
pub fn require_npx(runs: bool) -> (res: Result<(), Error>)
    ensures
        runs ==> res is Ok,
        !runs ==> res matches Err(Error::NpxNotFound),
{
    if runs {
        Ok(())
    } else {
        Err(Error::NpxNotFound)
    }
}

/// The end of the search through the renderer's bundles: it fails when no
/// bundle with the language drop-down was found.
pub fn require_renderer_found(found: bool) -> (res: Result<(), Error>)
    ensures
        found ==> res is Ok,
        !found ==> (res matches Err(Error::PatchFailed(m)) && m@ == RENDERER_NOT_FOUND@),
{
    if found {
        Ok(())
    } else {
        Err(Error::PatchFailed(RENDERER_NOT_FOUND.to_owned()))
    }
}

} // verus!
