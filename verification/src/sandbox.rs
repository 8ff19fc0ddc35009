//! The isolation of the process: four steps that cannot be undone, taken
//! in one order only.

use vstd::prelude::*;
use crate::error::RuntimeError;

verus! {

/// How far the isolation of the process has come. Each state is entered
/// once, from the one before it, and never left backwards.
#[derive(Clone, Copy, Debug, PartialEq, Eq, Structural)]
pub enum SandboxState {
    /// Nothing has been done yet.
    Unisolated,
    /// The filesystem root is the image's root.
    RootChanged,
    /// The working directory is the top of the new root.
    CwdFixed,
    /// The null device's path exists in the new root.
    DeviceEnsured,
    /// The detaching of the process-ID namespace has been attempted.
    NamespaceDetached,
}

/// One step of the isolation.
#[derive(Clone, Copy, Debug, PartialEq, Eq, Structural)]
pub enum IsolationStep {
    /// Change the filesystem root to the image's root.
    ChangeRoot,
    /// Change the working directory to the top of the new root.
    FixCwd,
    /// Make sure that the null device's path exists.
    EnsureDevice,
    /// Detach the process into a process-ID namespace of its own.
    DetachNamespace,
}

impl IsolationStep {
    /// Whether a failure of this step ends the run. Only the detaching of
    /// the namespace is attempted at best effort.
    pub open spec fn is_fatal(self) -> bool {
        self != IsolationStep::DetachNamespace
    }

    /// The state that this step leads to.
    pub open spec fn target(self) -> SandboxState {
        match self {
            IsolationStep::ChangeRoot => SandboxState::RootChanged,
            IsolationStep::FixCwd => SandboxState::CwdFixed,
            IsolationStep::EnsureDevice => SandboxState::DeviceEnsured,
            IsolationStep::DetachNamespace => SandboxState::NamespaceDetached,
        }
    }
}

impl SandboxState {
    /// The place of a state in the one order of the isolation.
    pub open spec fn rank(self) -> nat {
        match self {
            SandboxState::Unisolated => 0,
            SandboxState::RootChanged => 1,
            SandboxState::CwdFixed => 2,
            SandboxState::DeviceEnsured => 3,
            SandboxState::NamespaceDetached => 4,
        }
    }

    /// The one step that may be taken in a state; none once the isolation
    /// is complete.
    pub open spec fn pending(self) -> Option<IsolationStep> {
        match self {
            SandboxState::Unisolated => Some(IsolationStep::ChangeRoot),
            SandboxState::RootChanged => Some(IsolationStep::FixCwd),
            SandboxState::CwdFixed => Some(IsolationStep::EnsureDevice),
            SandboxState::DeviceEnsured => Some(IsolationStep::DetachNamespace),
            SandboxState::NamespaceDetached => None,
        }
    }

    /// Returns the step that is due in this state.
    pub fn next_step(&self) -> (step: Option<IsolationStep>)
        ensures
            step == self.pending(),
    {
        match self {
            SandboxState::Unisolated => Some(IsolationStep::ChangeRoot),
            SandboxState::RootChanged => Some(IsolationStep::FixCwd),
            SandboxState::CwdFixed => Some(IsolationStep::EnsureDevice),
            SandboxState::DeviceEnsured => Some(IsolationStep::DetachNamespace),
            SandboxState::NamespaceDetached => None,
        }
    }
}

/// The state after `step` was attempted in `state` and `succeeded` tells how
/// it went. A step that is not the one due is refused, whatever its
/// outcome; a failed step ends the isolation, unless it is the detaching of
/// the namespace, whose failure is tolerated.
pub open spec fn isolated(state: SandboxState, step: IsolationStep, succeeded: bool) -> Result<
    SandboxState,
    RuntimeError,
> {
    if state.pending() != Some(step) {
        Err(RuntimeError::OutOfOrder)
    } else if !succeeded && step.is_fatal() {
        Err(RuntimeError::IsolationError(step))
    } else {
        Ok(step.target())
    }
}

/// Records the outcome of one isolation step and gives the state that
/// follows.
pub fn isolate(state: SandboxState, step: IsolationStep, succeeded: bool) -> (out: Result<
    SandboxState,
    RuntimeError,
>)
    ensures
        out == isolated(state, step, succeeded),
{
    let due = match state.next_step() {
        Some(due) => due == step,
        None => false,
    };
    if !due {
        return Err(RuntimeError::OutOfOrder);
    }
    match step {
        IsolationStep::ChangeRoot => if succeeded {
            Ok(SandboxState::RootChanged)
        } else {
            Err(RuntimeError::IsolationError(step))
        },
        IsolationStep::FixCwd => if succeeded {
            Ok(SandboxState::CwdFixed)
        } else {
            Err(RuntimeError::IsolationError(step))
        },
        IsolationStep::EnsureDevice => if succeeded {
            Ok(SandboxState::DeviceEnsured)
        } else {
            Err(RuntimeError::IsolationError(step))
        },
        IsolationStep::DetachNamespace => Ok(SandboxState::NamespaceDetached),
    }
}

/// No step of the isolation is skipped, repeated or taken out of order:
/// whenever a step is accepted, it is the one due, and it moves the state
/// exactly one place forward.
pub proof fn lemma_isolation_is_ordered(state: SandboxState, step: IsolationStep, succeeded: bool)
    ensures
        isolated(state, step, succeeded) matches Ok(next) ==> {
            &&& state.pending() == Some(step)
            &&& next == step.target()
            &&& next.rank() == state.rank() + 1
        },
        state == SandboxState::NamespaceDetached ==> isolated(state, step, succeeded) is Err,
{
}

/// A complete isolation consists of the four steps in their one order:
/// if three accepted steps are followed by an accepted fourth that completes
/// the isolation, they were the change of root, the change of directory, the
/// device and the namespace, starting from the unisolated state.
pub proof fn lemma_complete_isolation(
    start: SandboxState,
    steps: Seq<IsolationStep>,
    outcomes: Seq<bool>,
)
    requires
        steps.len() == 4,
        outcomes.len() == 4,
        isolated(start, steps[0], outcomes[0]) matches Ok(first) && isolated(
            first,
            steps[1],
            outcomes[1],
        ) matches Ok(second) && isolated(second, steps[2], outcomes[2]) matches Ok(third)
            && isolated(third, steps[3], outcomes[3]) is Ok,
    ensures
        start == SandboxState::Unisolated,
        steps =~= seq![
            IsolationStep::ChangeRoot,
            IsolationStep::FixCwd,
            IsolationStep::EnsureDevice,
            IsolationStep::DetachNamespace,
        ],
        outcomes[0] && outcomes[1] && outcomes[2],
{
}

} // verus!
