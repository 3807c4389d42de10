//! The supervisor's lifecycle: launch with one retry, then shutdown.
//!
//! The supervisor is a state machine. The host application hands it an
//! `Event`, receives the `Action` to perform, performs it (probing the disk,
//! spawning, killing, sleeping) and reports the outcome as the next event.
//! The lifecycle runs `Idle → Starting → Running → Stopping → Stopped`, with
//! `Failed` reachable from `Starting`.

use vstd::prelude::*;
use crate::error::{LaunchError, LaunchFailure};
use crate::layout::{
    components, location_for, resolve_worker, BuildMode, LocationView, WorkerLocation,
};

verus! {

/// How long to let the operating system release the resources of swept
/// workers before the retry, in milliseconds.
pub const RETRY_DELAY_MS: u64 = 500;

/// The step of a launch attempt that the supervisor waits on.
#[derive(Clone, Copy, Debug, PartialEq, Eq, Structural)]
pub enum StartStage {
    /// Waiting to learn whether the executable exists.
    Check,
    /// Waiting for the outcome of a spawn.
    Spawn,
    /// Waiting for the cleanup sweep before the retry.
    Sweep,
    /// Waiting out the delay before the retry.
    Delay,
}

/// Where the supervisor stands in its lifecycle.
#[derive(Clone, Copy, Debug, PartialEq, Eq, Structural)]
pub enum Phase {
    Idle,
    /// A launch is under way; `retried` tells whether the single retry has
    /// been taken.
    Starting { stage: StartStage, retried: bool },
    Running,
    Failed,
    Stopping,
    Stopped,
}

/// What the host application reports to the supervisor.
#[derive(Debug)]
pub enum Event {
    /// The application starts; carries the directory of its own executable,
    /// if the operating system could tell it, and the build mode.
    AppStarting { app_dir: Option<Vec<String>>, mode: BuildMode },
    /// Whether the worker executable exists on disk.
    ExecutableChecked { present: bool },
    /// The worker was spawned with this process identifier.
    Spawned { pid: u32 },
    /// The operating system refused the spawn, with this message.
    SpawnRefused { message: String },
    /// The cleanup sweep before the retry has been issued.
    SweepFinished,
    /// The delay before the retry has passed.
    DelayElapsed,
    /// The window is closing or the application is exiting.
    ShutdownRequested,
    /// Termination of the worker has been issued; whether the kill itself
    /// succeeded is of no consequence.
    CleanupFinished { kill_succeeded: bool },
}

/// What the supervisor asks the host application to do.
#[derive(Debug)]
pub enum Action {
    Nothing,
    /// Tell whether the executable at this location exists.
    CheckExecutable(WorkerLocation),
    /// Spawn the executable at this location, with its directory as the
    /// working directory.
    Spawn(WorkerLocation),
    /// Run the cleanup sweep, then report `SweepFinished`.
    Sweep,
    /// Sleep this many milliseconds, then report `DelayElapsed`.
    Wait { millis: u64 },
    /// Give up launching; the application goes on without a worker.
    GiveUp(LaunchError),
    /// Off the GUI's thread: kill this process if there is one, then run
    /// the cleanup sweep.
    Shutdown { pid: Option<u32> },
}

/// An event with its data as mathematical values.
pub enum EventView {
    AppStarting { app_dir: Option<Seq<Seq<char>>>, mode: BuildMode },
    ExecutableChecked { present: bool },
    Spawned { pid: u32 },
    SpawnRefused { message: Seq<char> },
    SweepFinished,
    DelayElapsed,
    ShutdownRequested,
    CleanupFinished { kill_succeeded: bool },
}

/// An action with its data as mathematical values.
pub enum ActionView {
    Nothing,
    CheckExecutable(LocationView),
    Spawn(LocationView),
    Sweep,
    Wait { millis: u64 },
    GiveUp(LaunchFailure),
    Shutdown { pid: Option<u32> },
}

/// The supervisor's state as mathematical values.
pub struct SupervisorView {
    pub phase: Phase,
    pub pid: Option<u32>,
    pub location: Option<LocationView>,
}

impl View for Event {
    type V = EventView;

    open spec fn view(&self) -> EventView {
        match self {
            Event::AppStarting { app_dir, mode } => EventView::AppStarting {
                app_dir: match app_dir {
                    Some(d) => Some(components(d@)),
                    None => None,
                },
                mode: *mode,
            },
            Event::ExecutableChecked { present } => EventView::ExecutableChecked {
                present: *present,
            },
            Event::Spawned { pid } => EventView::Spawned { pid: *pid },
            Event::SpawnRefused { message } => EventView::SpawnRefused { message: message@ },
            Event::SweepFinished => EventView::SweepFinished,
            Event::DelayElapsed => EventView::DelayElapsed,
            Event::ShutdownRequested => EventView::ShutdownRequested,
            Event::CleanupFinished { kill_succeeded } => EventView::CleanupFinished {
                kill_succeeded: *kill_succeeded,
            },
        }
    }
}

impl View for Action {
    type V = ActionView;

    open spec fn view(&self) -> ActionView {
        match self {
            Action::Nothing => ActionView::Nothing,
            Action::CheckExecutable(l) => ActionView::CheckExecutable(l@),
            Action::Spawn(l) => ActionView::Spawn(l@),
            Action::Sweep => ActionView::Sweep,
            Action::Wait { millis } => ActionView::Wait { millis: *millis },
            Action::GiveUp(e) => ActionView::GiveUp(e@),
            Action::Shutdown { pid } => ActionView::Shutdown { pid: *pid },
        }
    }
}

/// Shutdown from any state before `Stopping`: terminate the recorded
/// worker, if any, and sweep.
pub open spec fn begin_shutdown(s: SupervisorView) -> (SupervisorView, ActionView) {
    (SupervisorView { phase: Phase::Stopping, ..s }, ActionView::Shutdown { pid: s.pid })
}

/// A failed launch attempt: the first eligible failure starts the single
/// retry with a cleanup sweep; any other failure ends the launch.
pub open spec fn fail_or_retry(s: SupervisorView, retried: bool, err: LaunchFailure) -> (
    SupervisorView,
    ActionView,
) {
    if !retried && err.retry_eligible() {
        (
            SupervisorView { phase: Phase::Starting { stage: StartStage::Sweep, retried: true }, ..s },
            ActionView::Sweep,
        )
    } else {
        (SupervisorView { phase: Phase::Failed, ..s }, ActionView::GiveUp(err))
    }
}

/// The supervisor's transition: the next state and the action for an event.
/// Events that do not fit the current state change nothing.
pub open spec fn next(s: SupervisorView, e: EventView) -> (SupervisorView, ActionView) {
    match s.phase {
        Phase::Idle => match e {
            EventView::AppStarting { app_dir, mode } => match app_dir {
                None => (
                    SupervisorView { phase: Phase::Failed, ..s },
                    ActionView::GiveUp(LaunchFailure::PathNotFound),
                ),
                Some(d) => (
                    SupervisorView {
                        phase: Phase::Starting { stage: StartStage::Check, retried: false },
                        location: Some(location_for(d, mode)),
                        ..s
                    },
                    ActionView::CheckExecutable(location_for(d, mode)),
                ),
            },
            EventView::ShutdownRequested => begin_shutdown(s),
            _ => (s, ActionView::Nothing),
        },
        Phase::Starting { stage, retried } => match e {
            EventView::ExecutableChecked { present } => if stage == StartStage::Check {
                if present {
                    (
                        SupervisorView {
                            phase: Phase::Starting { stage: StartStage::Spawn, retried },
                            ..s
                        },
                        ActionView::Spawn(s.location.unwrap()),
                    )
                } else {
                    fail_or_retry(s, retried, LaunchFailure::ExecutableMissing)
                }
            } else {
                (s, ActionView::Nothing)
            },
            EventView::Spawned { pid } => if stage == StartStage::Spawn {
                (
                    SupervisorView { phase: Phase::Running, pid: Some(pid), ..s },
                    ActionView::Nothing,
                )
            } else {
                (s, ActionView::Nothing)
            },
            EventView::SpawnRefused { message } => if stage == StartStage::Spawn {
                fail_or_retry(s, retried, LaunchFailure::SpawnFailed(message))
            } else {
                (s, ActionView::Nothing)
            },
            EventView::SweepFinished => if stage == StartStage::Sweep {
                (
                    SupervisorView {
                        phase: Phase::Starting { stage: StartStage::Delay, retried },
                        ..s
                    },
                    ActionView::Wait { millis: RETRY_DELAY_MS },
                )
            } else {
                (s, ActionView::Nothing)
            },
            EventView::DelayElapsed => if stage == StartStage::Delay {
                (
                    SupervisorView {
                        phase: Phase::Starting { stage: StartStage::Check, retried },
                        ..s
                    },
                    ActionView::CheckExecutable(s.location.unwrap()),
                )
            } else {
                (s, ActionView::Nothing)
            },
            EventView::ShutdownRequested => begin_shutdown(s),
            _ => (s, ActionView::Nothing),
        },
        Phase::Running | Phase::Failed => match e {
            EventView::ShutdownRequested => begin_shutdown(s),
            _ => (s, ActionView::Nothing),
        },
        Phase::Stopping | Phase::Stopped => match e {
            EventView::CleanupFinished { .. } => (
                SupervisorView { phase: Phase::Stopped, ..s },
                ActionView::Nothing,
            ),
            // Shutting down again re-issues the same idempotent cleanup.
            EventView::ShutdownRequested => (s, ActionView::Shutdown { pid: s.pid }),
            // A worker whose spawn completes after shutdown began is
            // terminated at once.
            EventView::Spawned { pid } => (s, ActionView::Shutdown { pid: Some(pid) }),
            _ => (s, ActionView::Nothing),
        },
    }
}

/// The supervisor: its lifecycle phase, the identifier of the current
/// worker once one was spawned, and the worker's location once resolved.
#[derive(Debug)]
pub struct Supervisor {
    phase: Phase,
    pid: Option<u32>,
    location: Option<WorkerLocation>,
}

impl View for Supervisor {
    type V = SupervisorView;

    closed spec fn view(&self) -> SupervisorView {
        SupervisorView {
            phase: self.phase,
            pid: self.pid,
            location: match self.location {
                Some(l) => Some(l@),
                None => None,
            },
        }
    }
}

/// The state before application startup.
pub open spec fn initial() -> SupervisorView {
    SupervisorView { phase: Phase::Idle, pid: None, location: None }
}

impl SupervisorView {
    /// No worker is recorded before one runs, one is recorded while it
    /// runs, and a launch in progress knows where the worker lives.
    pub open spec fn wf(self) -> bool {
        &&& self.phase is Idle ==> self.pid is None && self.location is None
        &&& self.phase is Starting ==> self.pid is None && self.location is Some
        &&& self.phase is Running ==> self.pid is Some
    }
}

impl Supervisor {
    pub open spec fn wf(&self) -> bool {
        self@.wf()
    }

    /// A supervisor before application startup.
    pub fn new() -> (r: Supervisor)
        ensures
            r@ == initial(),
            r.wf(),
    {
        Supervisor { phase: Phase::Idle, pid: None, location: None }
    }

    /// The current lifecycle phase.
    pub fn phase(&self) -> (r: Phase)
        ensures
            r == self@.phase,
    {
        self.phase
    }

    /// The identifier of the worker, once one was spawned.
    pub fn current_pid(&self) -> (r: Option<u32>)
        ensures
            r == self@.pid,
    {
        self.pid
    }

    fn begin_shutdown(&mut self) -> (a: Action)
        requires
            old(self).wf(),
            !(old(self)@.phase is Stopping),
            !(old(self)@.phase is Stopped),
        ensures
            (final(self)@, a@) == begin_shutdown(old(self)@),
            final(self).wf(),
    {
        self.phase = Phase::Stopping;
        Action::Shutdown { pid: self.pid }
    }

    fn fail_or_retry(&mut self, retried: bool, err: LaunchError) -> (a: Action)
        requires
            old(self).wf(),
            old(self)@.phase is Starting,
        ensures
            (final(self)@, a@) == fail_or_retry(old(self)@, retried, err@),
            final(self).wf(),
    {
        if !retried && err.retry_eligible() {
            self.phase = Phase::Starting { stage: StartStage::Sweep, retried: true };
            Action::Sweep
        } else {
            self.phase = Phase::Failed;
            Action::GiveUp(err)
        }
    }

    fn location_copy(&self) -> (r: WorkerLocation)
        requires
            self.location is Some,
        ensures
            r@ == self@.location.unwrap(),
    {
        match &self.location {
            Some(l) => l.duplicate(),
            None => WorkerLocation { dir: Vec::new(), exe: Vec::new() },
        }
    }

    /// Takes one event and returns the action it calls for, moving to the
    /// next state as `next` says.
    pub fn step(&mut self, event: Event) -> (a: Action)
        requires
            old(self).wf(),
        ensures
            (final(self)@, a@) == next(old(self)@, event@),
            final(self).wf(),
    {
        match self.phase {
            Phase::Idle => match event {
                Event::AppStarting { app_dir, mode } => {
                    match resolve_worker(app_dir, mode) {
                        Ok(loc) => {
                            let copy = loc.duplicate();
                            self.location = Some(loc);
                            self.phase = Phase::Starting {
                                stage: StartStage::Check,
                                retried: false,
                            };
                            Action::CheckExecutable(copy)
                        },
                        Err(e) => {
                            self.phase = Phase::Failed;
                            Action::GiveUp(e)
                        },
                    }
                },
                Event::ShutdownRequested => self.begin_shutdown(),
                _ => Action::Nothing,
            },
            Phase::Starting { stage, retried } => match event {
                Event::ExecutableChecked { present } => {
                    if stage == StartStage::Check {
                        if present {
                            self.phase = Phase::Starting { stage: StartStage::Spawn, retried };
                            Action::Spawn(self.location_copy())
                        } else {
                            self.fail_or_retry(retried, LaunchError::ExecutableMissing)
                        }
                    } else {
                        Action::Nothing
                    }
                },
                Event::Spawned { pid } => {
                    if stage == StartStage::Spawn {
                        self.phase = Phase::Running;
                        self.pid = Some(pid);
                    }
                    Action::Nothing
                },
                Event::SpawnRefused { message } => {
                    if stage == StartStage::Spawn {
                        self.fail_or_retry(retried, LaunchError::SpawnFailed(message))
                    } else {
                        Action::Nothing
                    }
                },
                Event::SweepFinished => {
                    if stage == StartStage::Sweep {
                        self.phase = Phase::Starting { stage: StartStage::Delay, retried };
                        Action::Wait { millis: RETRY_DELAY_MS }
                    } else {
                        Action::Nothing
                    }
                },
                Event::DelayElapsed => {
                    if stage == StartStage::Delay {
                        self.phase = Phase::Starting { stage: StartStage::Check, retried };
                        Action::CheckExecutable(self.location_copy())
                    } else {
                        Action::Nothing
                    }
                },
                Event::ShutdownRequested => self.begin_shutdown(),
                _ => Action::Nothing,
            },
            Phase::Running | Phase::Failed => match event {
                Event::ShutdownRequested => self.begin_shutdown(),
                _ => Action::Nothing,
            },
            Phase::Stopping | Phase::Stopped => match event {
                Event::CleanupFinished { .. } => {
                    self.phase = Phase::Stopped;
                    Action::Nothing
                },
                Event::ShutdownRequested => Action::Shutdown { pid: self.pid },
                Event::Spawned { pid } => Action::Shutdown { pid: Some(pid) },
                _ => Action::Nothing,
            },
        }
    }
}

} // verus!
