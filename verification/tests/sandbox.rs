use container_runtime::error::RuntimeError;
use container_runtime::outcome::{exit_code, ExitOutcome, FAILURE_EXIT_CODE};
use container_runtime::sandbox::{isolate, IsolationStep, SandboxState};

const STATES: [SandboxState; 5] = [
    SandboxState::Unisolated,
    SandboxState::RootChanged,
    SandboxState::CwdFixed,
    SandboxState::DeviceEnsured,
    SandboxState::NamespaceDetached,
];

const STEPS: [IsolationStep; 4] = [
    IsolationStep::ChangeRoot,
    IsolationStep::FixCwd,
    IsolationStep::EnsureDevice,
    IsolationStep::DetachNamespace,
];

#[test]
fn isolation_steps_follow_one_order() {
    let mut state = SandboxState::Unisolated;
    let mut taken = Vec::new();
    while let Some(step) = state.next_step() {
        taken.push(step);
        state = isolate(state, step, true).unwrap();
    }
    assert_eq!(taken, STEPS.to_vec());
    assert_eq!(state, SandboxState::NamespaceDetached);
}

#[test]
fn each_state_awaits_one_step() {
    assert_eq!(SandboxState::Unisolated.next_step(), Some(IsolationStep::ChangeRoot));
    assert_eq!(SandboxState::RootChanged.next_step(), Some(IsolationStep::FixCwd));
    assert_eq!(SandboxState::CwdFixed.next_step(), Some(IsolationStep::EnsureDevice));
    assert_eq!(SandboxState::DeviceEnsured.next_step(), Some(IsolationStep::DetachNamespace));
    assert_eq!(SandboxState::NamespaceDetached.next_step(), None);
}

#[test]
fn a_step_that_is_not_due_is_refused() {
    for (i, state) in STATES.iter().enumerate() {
        for (j, step) in STEPS.iter().enumerate() {
            for succeeded in [true, false] {
                let out = isolate(*state, *step, succeeded);
                if i == j {
                    if succeeded || *step == IsolationStep::DetachNamespace {
                        assert_eq!(out, Ok(STATES[i + 1]));
                    } else {
                        assert_eq!(out, Err(RuntimeError::IsolationError(*step)));
                    }
                } else {
                    assert_eq!(out, Err(RuntimeError::OutOfOrder));
                }
            }
        }
    }
}

#[test]
fn isolating_twice_is_refused() {
    let state = isolate(SandboxState::Unisolated, IsolationStep::ChangeRoot, true).unwrap();
    assert_eq!(
        isolate(state, IsolationStep::ChangeRoot, true),
        Err(RuntimeError::OutOfOrder)
    );
    assert_eq!(
        isolate(SandboxState::NamespaceDetached, IsolationStep::DetachNamespace, true),
        Err(RuntimeError::OutOfOrder)
    );
}

#[test]
fn a_failed_root_change_is_fatal() {
    assert_eq!(
        isolate(SandboxState::Unisolated, IsolationStep::ChangeRoot, false),
        Err(RuntimeError::IsolationError(IsolationStep::ChangeRoot))
    );
    assert_eq!(
        isolate(SandboxState::RootChanged, IsolationStep::FixCwd, false),
        Err(RuntimeError::IsolationError(IsolationStep::FixCwd))
    );
    assert_eq!(
        isolate(SandboxState::CwdFixed, IsolationStep::EnsureDevice, false),
        Err(RuntimeError::IsolationError(IsolationStep::EnsureDevice))
    );
}

#[test]
fn a_failed_detach_is_tolerated() {
    assert_eq!(
        isolate(SandboxState::DeviceEnsured, IsolationStep::DetachNamespace, false),
        Ok(SandboxState::NamespaceDetached)
    );
    assert_eq!(
        isolate(SandboxState::DeviceEnsured, IsolationStep::DetachNamespace, true),
        Ok(SandboxState::NamespaceDetached)
    );
}

#[test]
fn exit_code_is_the_childs_or_a_default() {
    assert_eq!(exit_code(true, Some(0)), 0);
    assert_eq!(exit_code(false, Some(3)), 3);
    assert_eq!(exit_code(true, Some(42)), 42);
    assert_eq!(exit_code(false, Some(0)), 0);
    assert_eq!(exit_code(false, Some(-1)), -1);
    assert_eq!(exit_code(true, None), 0);
    assert_eq!(exit_code(false, None), 1);
    assert_eq!(FAILURE_EXIT_CODE, 1);
}

#[test]
fn exit_outcome_carries_streams_and_code() {
    let outcome = ExitOutcome::new(false, None, b"out".to_vec(), b"err".to_vec());
    assert_eq!(
        outcome,
        ExitOutcome { stdout: b"out".to_vec(), stderr: b"err".to_vec(), code: 1 }
    );
    let outcome = ExitOutcome::new(true, Some(7), vec![], vec![]);
    assert_eq!(outcome, ExitOutcome { stdout: vec![], stderr: vec![], code: 7 });
}
