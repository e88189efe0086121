//! The ordered steps that start, stop and restart the stack. The machine
//! decides which step comes next and what an outcome leads to; the caller
//! performs the step and reports whether it succeeded.

use vstd::prelude::*;

verus! {

/// What is being done to the stack. A restart is the stop path followed by
/// the start path.
#[derive(PartialEq, Eq, Structural, Clone, Copy, Debug)]
pub enum Mode {
    Start,
    Stop,
    Restart,
}

/// One external operation of a lifecycle run.
#[derive(PartialEq, Eq, Structural, Clone, Copy, Debug)]
pub enum Step {
    /// Check that the container runtime is installed and reachable.
    CheckRuntime,
    /// Copy the static assets into the working layout.
    CopySystemFiles,
    /// Generate the environment file and load it.
    GenerateEnv,
    /// Normalize file permissions across the working tree.
    EnsurePermissions,
    /// Pull the stack's images.
    PullImages,
    /// Stop and remove each fixed container, best effort.
    RemoveStaleContainers,
    /// Bring the stack up.
    StackUp,
    /// Bring the stack down.
    StackDown,
    /// Stop and remove each fixed container after the stack is down, best effort.
    RemoveContainers,
}

/// The orchestrator command that failed.
#[derive(PartialEq, Eq, Structural, Clone, Copy, Debug)]
pub enum OrchestratorStep {
    Pull,
    Up,
    Down,
}

/// Why a lifecycle run stopped.
#[derive(PartialEq, Eq, Structural, Clone, Copy, Debug)]
pub enum LifecycleError {
    RuntimeUnavailable,
    SystemFilesCopy,
    EnvGeneration,
    Permissions,
    OrchestratorCommandFailed(OrchestratorStep),
}

/// Where a lifecycle run stands.
#[derive(PartialEq, Eq, Structural, Clone, Copy, Debug)]
pub enum Phase {
    Idle,
    RuntimeChecked,
    SystemFilesCopied,
    EnvGenerated,
    PermissionsEnsured,
    ImagesPulled,
    StaleContainersRemoved,
    Running,
    StackDown,
    Stopped,
    Failed(LifecycleError),
}

/// The step that follows `phase`, or `None` once the run is over. The
/// permission step is left out only when the operator asked for that.
pub open spec fn next_step_of(mode: Mode, skip_permissions: bool, phase: Phase) -> Option<Step> {
    match phase {
        Phase::Idle => if mode == Mode::Start { Some(Step::CheckRuntime) } else { Some(Step::StackDown) },
        Phase::StackDown => Some(Step::RemoveContainers),
        Phase::Stopped => if mode == Mode::Restart { Some(Step::CheckRuntime) } else { None },
        Phase::RuntimeChecked => Some(Step::CopySystemFiles),
        Phase::SystemFilesCopied => Some(Step::GenerateEnv),
        Phase::EnvGenerated => if skip_permissions { Some(Step::PullImages) } else { Some(Step::EnsurePermissions) },
        Phase::PermissionsEnsured => Some(Step::PullImages),
        Phase::ImagesPulled => Some(Step::RemoveStaleContainers),
        Phase::StaleContainersRemoved => Some(Step::StackUp),
        Phase::Running => None,
        Phase::Failed(_) => None,
    }
}

/// Where a step leaves the run. Every failure is final, but for the
/// best-effort container removals, whose failures are ignored.
pub open spec fn phase_after(step: Step, ok: bool) -> Phase {
    match step {
        Step::CheckRuntime => if ok { Phase::RuntimeChecked } else { Phase::Failed(LifecycleError::RuntimeUnavailable) },
        Step::CopySystemFiles => if ok { Phase::SystemFilesCopied } else { Phase::Failed(LifecycleError::SystemFilesCopy) },
        Step::GenerateEnv => if ok { Phase::EnvGenerated } else { Phase::Failed(LifecycleError::EnvGeneration) },
        Step::EnsurePermissions => if ok { Phase::PermissionsEnsured } else { Phase::Failed(LifecycleError::Permissions) },
        Step::PullImages => if ok { Phase::ImagesPulled } else {
            Phase::Failed(LifecycleError::OrchestratorCommandFailed(OrchestratorStep::Pull))
        },
        Step::RemoveStaleContainers => Phase::StaleContainersRemoved,
        Step::StackUp => if ok { Phase::Running } else {
            Phase::Failed(LifecycleError::OrchestratorCommandFailed(OrchestratorStep::Up))
        },
        Step::StackDown => if ok { Phase::StackDown } else {
            Phase::Failed(LifecycleError::OrchestratorCommandFailed(OrchestratorStep::Down))
        },
        Step::RemoveContainers => Phase::Stopped,
    }
}

/// The steps a run performs from `phase` when the steps' outcomes come in
/// the order given. The run ends when no step follows or no outcome is left.
pub open spec fn steps_run(mode: Mode, skip_permissions: bool, phase: Phase, outcomes: Seq<bool>) -> Seq<Step>
    decreases outcomes.len(),
{
    if outcomes.len() == 0 {
        Seq::empty()
    } else {
        match next_step_of(mode, skip_permissions, phase) {
            None => Seq::empty(),
            Some(s) => seq![s] + steps_run(mode, skip_permissions, phase_after(s, outcomes[0]), outcomes.drop_first()),
        }
    }
}

/// A start, stop or restart of the stack, step by step.
#[derive(Debug)]
pub struct Lifecycle {
    pub mode: Mode,
    pub skip_permissions: bool,
    pub phase: Phase,
}

impl Lifecycle {
    pub fn new(mode: Mode, skip_permissions: bool) -> (r: Lifecycle)
        ensures
            r.mode == mode,
            r.skip_permissions == skip_permissions,
            r.phase == Phase::Idle,
    {
        Lifecycle { mode, skip_permissions, phase: Phase::Idle }
    }

    /// The step to perform now, or `None` when the run is over.
    pub fn next_step(&self) -> (r: Option<Step>)
        ensures
            r == next_step_of(self.mode, self.skip_permissions, self.phase),
    {
        match self.phase {
            Phase::Idle => if self.mode == Mode::Start { Some(Step::CheckRuntime) } else { Some(Step::StackDown) },
            Phase::StackDown => Some(Step::RemoveContainers),
            Phase::Stopped => if self.mode == Mode::Restart { Some(Step::CheckRuntime) } else { None },
            Phase::RuntimeChecked => Some(Step::CopySystemFiles),
            Phase::SystemFilesCopied => Some(Step::GenerateEnv),
            Phase::EnvGenerated => if self.skip_permissions { Some(Step::PullImages) } else { Some(Step::EnsurePermissions) },
            Phase::PermissionsEnsured => Some(Step::PullImages),
            Phase::ImagesPulled => Some(Step::RemoveStaleContainers),
            Phase::StaleContainersRemoved => Some(Step::StackUp),
            Phase::Running => None,
            Phase::Failed(_) => None,
        }
    }

    /// Records the outcome of the step that `next_step` named. With no step
    /// pending, the run is left as it is.
    pub fn record(&mut self, ok: bool)
        ensures
            final(self).mode == old(self).mode,
            final(self).skip_permissions == old(self).skip_permissions,
            final(self).phase == match next_step_of(old(self).mode, old(self).skip_permissions, old(self).phase) {
                Some(s) => phase_after(s, ok),
                None => old(self).phase,
            },
    {
        match self.next_step() {
            Some(s) => {
                self.phase = match s {
                    Step::CheckRuntime => if ok { Phase::RuntimeChecked } else { Phase::Failed(LifecycleError::RuntimeUnavailable) },
                    Step::CopySystemFiles => if ok { Phase::SystemFilesCopied } else { Phase::Failed(LifecycleError::SystemFilesCopy) },
                    Step::GenerateEnv => if ok { Phase::EnvGenerated } else { Phase::Failed(LifecycleError::EnvGeneration) },
                    Step::EnsurePermissions => if ok { Phase::PermissionsEnsured } else { Phase::Failed(LifecycleError::Permissions) },
                    Step::PullImages => if ok { Phase::ImagesPulled } else {
                        Phase::Failed(LifecycleError::OrchestratorCommandFailed(OrchestratorStep::Pull))
                    },
                    Step::RemoveStaleContainers => Phase::StaleContainersRemoved,
                    Step::StackUp => if ok { Phase::Running } else {
                        Phase::Failed(LifecycleError::OrchestratorCommandFailed(OrchestratorStep::Up))
                    },
                    Step::StackDown => if ok { Phase::StackDown } else {
                        Phase::Failed(LifecycleError::OrchestratorCommandFailed(OrchestratorStep::Down))
                    },
                    Step::RemoveContainers => Phase::Stopped,
                };
            },
            None => {},
        }
    }

    /// How the run ended: `Ok` once the stack runs (start, restart) or is
    /// stopped (stop), the cause once a step failed, `None` while it goes on.
    pub fn outcome(&self) -> (r: Option<Result<(), LifecycleError>>)
        ensures
            r == match self.phase {
                Phase::Failed(e) => Some(Err(e)),
                Phase::Running => Some(Ok(())),
                Phase::Stopped => if self.mode == Mode::Stop { Some(Ok(())) } else { None },
                _ => None,
            },
    {
        match self.phase {
            Phase::Failed(e) => Some(Err(e)),
            Phase::Running => Some(Ok(())),
            Phase::Stopped => if self.mode == Mode::Stop { Some(Ok(())) } else { None },
            _ => None,
        }
    }
}

/// A failed run performs no further step.
pub proof fn lemma_failure_is_final(mode: Mode, skip_permissions: bool, e: LifecycleError, outcomes: Seq<bool>)
    ensures
        next_step_of(mode, skip_permissions, Phase::Failed(e)) is None,
        steps_run(mode, skip_permissions, Phase::Failed(e), outcomes) == Seq::<Step>::empty(),
{
}

/// When the container runtime check fails, a start performs no other step:
/// no system-file copy, no environment generation, no image pull.
pub proof fn lemma_start_stops_at_runtime_check(skip_permissions: bool, outcomes: Seq<bool>)
    requires
        outcomes.len() > 0,
        outcomes[0] == false,
    ensures
        steps_run(Mode::Start, skip_permissions, Phase::Idle, outcomes) == seq![Step::CheckRuntime],
{
    lemma_failure_is_final(Mode::Start, skip_permissions, LifecycleError::RuntimeUnavailable, outcomes.drop_first());
    assert(steps_run(Mode::Start, skip_permissions, Phase::Idle, outcomes) =~= seq![Step::CheckRuntime]);
}

/// A failed `down` ends a stop before any container is removed; a `down`
/// that succeeds is always followed by the removal of every fixed
/// container, whatever that removal reports, and the stack is then stopped.
pub proof fn lemma_stop_path(skip_permissions: bool, outcomes: Seq<bool>)
    requires
        outcomes.len() > 0,
    ensures
        outcomes[0] == false ==> steps_run(Mode::Stop, skip_permissions, Phase::Idle, outcomes) == seq![Step::StackDown],
        outcomes[0] == true && outcomes.len() > 1 ==> steps_run(Mode::Stop, skip_permissions, Phase::Idle, outcomes)
            == seq![Step::StackDown, Step::RemoveContainers],
        outcomes[0] == true ==> phase_after(Step::RemoveContainers, true) == Phase::Stopped
            && phase_after(Step::RemoveContainers, false) == Phase::Stopped,
{
    let rest = outcomes.drop_first();
    if outcomes[0] == false {
        lemma_failure_is_final(Mode::Stop, skip_permissions,
            LifecycleError::OrchestratorCommandFailed(OrchestratorStep::Down), rest);
        assert(steps_run(Mode::Stop, skip_permissions, Phase::Idle, outcomes) =~= seq![Step::StackDown]);
    } else if outcomes.len() > 1 {
        let rest2 = rest.drop_first();
        assert(steps_run(Mode::Stop, skip_permissions, Phase::Stopped, rest2) =~= Seq::<Step>::empty());
        assert(steps_run(Mode::Stop, skip_permissions, Phase::StackDown, rest)
            =~= seq![Step::RemoveContainers]);
        assert(steps_run(Mode::Stop, skip_permissions, Phase::Idle, outcomes)
            =~= seq![Step::StackDown, Step::RemoveContainers]);
    }
}

} // verus!
