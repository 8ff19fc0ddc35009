//! The whole run, as a machine: pull the image, isolate the process, run
//! the command. The driver performs each action and reports what came of
//! it; the machine decides what follows.

use vstd::prelude::*;
use crate::error::{string_views, RuntimeError, RuntimeErrorView};
use crate::manifest::{Platform, PlatformView};
use crate::outcome::{exit_code_of, ExitOutcome, ExitOutcomeView, FAILURE_EXIT_CODE};
use crate::pull::{pull_image, pull_next, PullAction, PullActionView, PullEvent, PullEventView,
    PullState, PullStateView};
use crate::registry::{Registry, RegistryView};
use crate::sandbox::{isolate, isolated, IsolationStep, SandboxState};

verus! {

/// The part of the run that is under way.
#[derive(Clone, Copy, Debug, PartialEq, Eq, Structural)]
pub enum Phase {
    /// The image is being pulled and its layers unpacked.
    Pulling,
    /// The process is being isolated.
    Isolating,
    /// The command has been handed out to be run.
    Running,
    /// The command has ended.
    Finished,
    /// The run has failed.
    Failed,
}

/// One run: what was asked for, and how far it has come.
#[derive(Debug)]
pub struct Pipeline {
    registry: Registry,
    platform: Platform,
    command: String,
    args: Vec<String>,
    phase: Phase,
    pull: PullState,
    sandbox: SandboxState,
}

/// The mathematical content of a [`Pipeline`].
pub struct PipelineView {
    /// The image to run.
    pub registry: RegistryView,
    /// The platform to pull it for.
    pub platform: PlatformView,
    /// The command to run in it.
    pub command: Seq<char>,
    /// The command's arguments.
    pub args: Seq<Seq<char>>,
    /// The part of the run that is under way.
    pub phase: Phase,
    /// How far the pull has come.
    pub pull: PullStateView,
    /// How far the isolation has come.
    pub sandbox: SandboxState,
}

impl View for Pipeline {
    type V = PipelineView;

    closed spec fn view(&self) -> PipelineView {
        PipelineView {
            registry: self.registry@,
            platform: self.platform@,
            command: self.command@,
            args: string_views(self.args@),
            phase: self.phase,
            pull: self.pull@,
            sandbox: self.sandbox,
        }
    }
}

/// What a driver reports to a run.
#[derive(Debug)]
pub enum Event {
    /// A report to the pull.
    Pull(PullEvent),
    /// This isolation step has been attempted, and succeeded or not.
    Isolated(IsolationStep, bool),
    /// The command has ended.
    Exited { success: bool, code: Option<i32>, stdout: Vec<u8>, stderr: Vec<u8> },
    /// The command could not be started.
    SpawnFailed,
}

/// The mathematical content of an [`Event`].
pub enum EventView {
    Pull(PullEventView),
    Isolated(IsolationStep, bool),
    Exited { success: bool, code: Option<i32>, stdout: Seq<u8>, stderr: Seq<u8> },
    SpawnFailed,
}

impl View for Event {
    type V = EventView;

    open spec fn view(&self) -> EventView {
        match *self {
            Event::Pull(event) => EventView::Pull(event@),
            Event::Isolated(step, succeeded) => EventView::Isolated(step, succeeded),
            Event::Exited { success, code, stdout, stderr } => EventView::Exited {
                success,
                code,
                stdout: stdout@,
                stderr: stderr@,
            },
            Event::SpawnFailed => EventView::SpawnFailed,
        }
    }
}

/// What a run asks its driver to do next.
#[derive(Debug, PartialEq, Eq)]
pub enum Action {
    /// Do this for the pull, and report a `Pull` event. It is never the
    /// pull's `Done` or `Fail`.
    Pull(PullAction),
    /// Attempt this isolation step, and report an `Isolated` that names
    /// it.
    Isolate(IsolationStep),
    /// Run the command, capture its streams, and report an `Exited` or a
    /// `SpawnFailed`. `detached` is false where the process-ID namespace
    /// could not be detached: the command then runs among the host's
    /// processes, which deserves a warning.
    Spawn { command: String, args: Vec<String>, detached: bool },
    /// Pass the command's streams on and exit with its code.
    Exit(ExitOutcome),
    /// Report this error and exit with the code of a failure.
    Fail(RuntimeError),
}

/// The mathematical content of an [`Action`].
pub enum ActionView {
    Pull(PullActionView),
    Isolate(IsolationStep),
    Spawn { command: Seq<char>, args: Seq<Seq<char>>, detached: bool },
    Exit(ExitOutcomeView),
    Fail(RuntimeErrorView),
}

impl View for Action {
    type V = ActionView;

    open spec fn view(&self) -> ActionView {
        match *self {
            Action::Pull(action) => ActionView::Pull(action@),
            Action::Isolate(step) => ActionView::Isolate(step),
            Action::Spawn { command, args, detached } => ActionView::Spawn {
                command: command@,
                args: string_views(args@),
                detached,
            },
            Action::Exit(outcome) => ActionView::Exit(outcome@),
            Action::Fail(error) => ActionView::Fail(error@),
        }
    }
}

impl ActionView {
    /// The exit code with which an action ends the run, if it ends it: the
    /// command's, or 1 after a failure.
    pub open spec fn exit_code(self) -> Option<i32> {
        match self {
            ActionView::Exit(outcome) => Some(outcome.code),
            ActionView::Fail(_) => Some(FAILURE_EXIT_CODE),
            _ => None,
        }
    }
}

impl PipelineView {
    /// The run of `command` with `args` in `image`, pulled for `platform`,
    /// before anything was done.
    pub open spec fn initial(
        image: Seq<char>,
        platform: PlatformView,
        command: Seq<char>,
        args: Seq<Seq<char>>,
    ) -> PipelineView {
        PipelineView {
            registry: RegistryView {
                image,
                image_name: crate::registry::image_name_of(image),
                reference: crate::registry::reference_of(image),
            },
            platform,
            command,
            args,
            phase: Phase::Pulling,
            pull: PullStateView::initial(),
            sandbox: SandboxState::Unisolated,
        }
    }

    /// The run ends in failure with `error`.
    pub open spec fn failed(self, error: RuntimeErrorView) -> (PipelineView, ActionView) {
        (PipelineView { phase: Phase::Failed, ..self }, ActionView::Fail(error))
    }

    /// The answer to a report to the pull. When the pull is complete, the
    /// isolation begins with the change of root; when the pull fails, the
    /// run fails with the pull's error.
    pub open spec fn after_pull(self, event: PullEventView) -> (PipelineView, ActionView) {
        let (pull, action) = pull_next(self.registry, self.platform, self.pull, event);
        match action {
            PullActionView::Done => (
                PipelineView { phase: Phase::Isolating, pull, ..self },
                ActionView::Isolate(IsolationStep::ChangeRoot),
            ),
            PullActionView::Fail(error) => PipelineView { pull, ..self }.failed(error),
            _ => (PipelineView { pull, ..self }, ActionView::Pull(action)),
        }
    }

    /// The answer to the report of an isolation step: the next step, or,
    /// after the last one, the command. A step that was not due, or whose
    /// failure is fatal, fails the run.
    pub open spec fn after_isolation(self, step: IsolationStep, succeeded: bool) -> (
        PipelineView,
        ActionView,
    ) {
        match isolated(self.sandbox, step, succeeded) {
            Err(error) => self.failed(error@),
            Ok(sandbox) => match sandbox.pending() {
                Some(next) => (PipelineView { sandbox, ..self }, ActionView::Isolate(next)),
                None => (
                    PipelineView { phase: Phase::Running, sandbox, ..self },
                    ActionView::Spawn { command: self.command, args: self.args, detached: succeeded },
                ),
            },
        }
    }

    /// One step of a run: the state and the action that follow when
    /// `event` arrives. An event that the state does not await fails the
    /// run.
    pub open spec fn next(self, event: EventView) -> (PipelineView, ActionView) {
        match (self.phase, event) {
            (Phase::Pulling, EventView::Pull(event)) => self.after_pull(event),
            (Phase::Isolating, EventView::Isolated(step, succeeded)) => self.after_isolation(
                step,
                succeeded,
            ),
            (Phase::Running, EventView::Exited { success, code, stdout, stderr }) => (
                PipelineView { phase: Phase::Finished, ..self },
                ActionView::Exit(
                    ExitOutcomeView { stdout, stderr, code: exit_code_of(success, code) },
                ),
            ),
            (Phase::Running, EventView::SpawnFailed) => self.failed(
                RuntimeErrorView::SpawnError { command: self.command, args: self.args },
            ),
            _ => self.failed(RuntimeErrorView::OutOfOrder),
        }
    }
}

/// What a run passes on from its pull is something to do for the pull:
/// the pull's end, in success or in failure, is answered by the run itself.
pub proof fn lemma_pull_actions_are_requests(s: PipelineView, e: EventView)
    ensures
        s.next(e).1 matches ActionView::Pull(action) ==> !(action is Done) && !(action is Fail),
{
}

/// Copies a list of strings.
fn copy_strings(strings: &Vec<String>) -> (copy: Vec<String>)
    ensures
        string_views(copy@) == string_views(strings@),
{
    let mut copy: Vec<String> = Vec::new();
    let n: usize = strings.len();
    let mut i: usize = 0;
    while i < n
        invariant
            i <= n,
            n == strings.len(),
            copy.len() == i,
            forall|j: int| 0 <= j < i ==> copy[j]@ == strings[j]@,
        decreases n - i,
    {
        copy.push(strings[i].clone());
        i = i + 1;
    }
    assert(string_views(copy@) =~= string_views(strings@));
    copy
}

impl Action {
    /// The exit code with which this action ends the run, if it ends it.
    pub fn exit_code(&self) -> (code: Option<i32>)
        ensures
            code == self@.exit_code(),
    {
        match self {
            Action::Exit(outcome) => Some(outcome.code),
            Action::Fail(_) => Some(FAILURE_EXIT_CODE),
            _ => None,
        }
    }
}

impl Pipeline {
    /// Prepares the run of `command` with `args` in `image`, pulled for the
    /// platform of the two names. Nothing is done yet: the first event to
    /// report is the pull's `Begin`.
    pub fn new(image: &str, architecture: &str, os: &str, command: &str, args: Vec<String>) -> (run:
        Pipeline)
        ensures
            run@ == PipelineView::initial(
                image@,
                PlatformView { architecture: architecture@, os: os@ },
                command@,
                string_views(args@),
            ),
    {
        Pipeline {
            registry: Registry::new(image),
            platform: Platform::new(architecture, os),
            command: String::from_str(command),
            args,
            phase: Phase::Pulling,
            pull: PullState::new(),
            sandbox: SandboxState::Unisolated,
        }
    }

    /// The part of the run that is under way.
    pub fn phase(&self) -> (phase: Phase)
        ensures
            phase == self@.phase,
    {
        self.phase
    }

    /// How far the isolation has come.
    pub fn sandbox(&self) -> (sandbox: SandboxState)
        ensures
            sandbox == self@.sandbox,
    {
        self.sandbox
    }

    /// Ends the run in failure.
    fn fail(self, error: RuntimeError) -> (out: (Pipeline, Action))
        ensures
            (out.0@, out.1@) == self@.failed(error@),
    {
        (Pipeline { phase: Phase::Failed, ..self }, Action::Fail(error))
    }

    /// Answers a report to the pull.
    fn on_pull(self, event: PullEvent) -> (out: (Pipeline, Action))
        ensures
            (out.0@, out.1@) == self@.after_pull(event@),
    {
        let Pipeline { registry, platform, command, args, phase, pull, sandbox } = self;
        let (pull, action) = pull_image(&registry, &platform, pull, event);
        match action {
            PullAction::Done => (
                Pipeline { registry, platform, command, args, phase: Phase::Isolating, pull, sandbox },
                Action::Isolate(IsolationStep::ChangeRoot),
            ),
            PullAction::Fail(error) => Pipeline {
                registry,
                platform,
                command,
                args,
                phase,
                pull,
                sandbox,
            }.fail(error),
            action => (
                Pipeline { registry, platform, command, args, phase, pull, sandbox },
                Action::Pull(action),
            ),
        }
    }

    /// Answers the report of an isolation step.
    fn on_isolated(self, step: IsolationStep, succeeded: bool) -> (out: (Pipeline, Action))
        ensures
            (out.0@, out.1@) == self@.after_isolation(step, succeeded),
    {
        match isolate(self.sandbox, step, succeeded) {
            Err(error) => self.fail(error),
            Ok(sandbox) => match sandbox.next_step() {
                Some(next) => (Pipeline { sandbox, ..self }, Action::Isolate(next)),
                None => {
                    let command = self.command.clone();
                    let args = copy_strings(&self.args);
                    (
                        Pipeline { phase: Phase::Running, sandbox, ..self },
                        Action::Spawn { command, args, detached: succeeded },
                    )
                },
            },
        }
    }

    /// Takes the run one step further: answers the event that the driver
    /// reports with the state that follows and the next thing to do.
    pub fn step(self, event: Event) -> (out: (Pipeline, Action))
        ensures
            (out.0@, out.1@) == self@.next(event@),
            out.1 matches Action::Pull(action) ==> !(action is Done) && !(action is Fail),
    {
        proof {
            lemma_pull_actions_are_requests(self@, event@);
        }
        match (self.phase, event) {
            (Phase::Pulling, Event::Pull(event)) => self.on_pull(event),
            (Phase::Isolating, Event::Isolated(step, succeeded)) => self.on_isolated(
                step,
                succeeded,
            ),
            (Phase::Running, Event::Exited { success, code, stdout, stderr }) => (
                Pipeline { phase: Phase::Finished, ..self },
                Action::Exit(ExitOutcome::new(success, code, stdout, stderr)),
            ),
            (Phase::Running, Event::SpawnFailed) => {
                let Pipeline { registry, platform, command, args, phase, pull, sandbox } = self;
                let error = RuntimeError::SpawnError {
                    command: command.clone(),
                    args: copy_strings(&args),
                };
                Pipeline { registry, platform, command, args, phase, pull, sandbox }.fail(error)
            },
            (_, _) => self.fail(RuntimeError::OutOfOrder),
        }
    }
}

} // verus!
