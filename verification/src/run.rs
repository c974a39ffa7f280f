//! The run supervisor: when to wait, when to run the command, when to
//! interrupt it and when to stop.
//!
//! The supervisor is a transition system. The caller owns the change channel
//! and the child process; it reports what happened as a [`RunEvent`] and
//! performs the [`RunAction`] it gets back.

use vstd::prelude::*;

use crate::target::{EventKind, WatcherEvent};

verus! {

/// Where the supervisor stands.
#[derive(Clone, Copy, Debug, PartialEq, Eq, Structural)]
pub enum RunPhase {
    /// Blocked until the next event arrives.
    Waiting,
    /// The quiet period is running.
    Sleeping,
    /// Emptying the queue of events that arrived during the quiet period.
    Draining,
    /// The command is being started.
    Launching,
    /// The command runs; its end races against further events.
    Running,
    /// The interrupt is being delivered to the running command.
    Signalling,
    /// The supervisor has ended with an outcome.
    Finished,
}

/// Why the supervisor ended in failure.
#[derive(Debug)]
pub enum RunError {
    /// The watch engine reported an error; the text is its cause.
    Watch(String),
    /// The change channel closed while the command was running.
    Disconnected,
    /// The command could not be started.
    Spawn(String),
    /// The end of the command could not be observed.
    Wait(String),
    /// The interrupt could not be delivered.
    Signal(String),
    /// The caller reported something that cannot happen in the phase at hand.
    Unexpected,
}

/// What the caller reports to the supervisor.
#[derive(Debug)]
pub enum RunEvent {
    /// An event came out of the change channel.
    Received(WatcherEvent),
    /// The change channel is closed.
    Disconnected,
    /// The quiet period is over.
    Slept,
    /// The change channel holds nothing at the moment.
    QueueEmpty,
    /// The command has been started.
    Launched,
    /// The command could not be started.
    LaunchFailed(String),
    /// The command has ended, with its exit code unless a signal ended it.
    ChildExited { code: Option<i32> },
    /// The end of the command could not be observed.
    WaitFailed(String),
    /// The interrupt was delivered.
    Signalled,
    /// The interrupt could not be delivered.
    SignalFailed(String),
}

/// What the supervisor asks the caller to do next.
#[derive(Debug)]
pub enum RunAction {
    /// Block for the next event; report `Received` or `Disconnected`.
    Receive,
    /// Sleep for the quiet period; report `Slept`.
    Sleep { nanos: u64 },
    /// Take one queued event without blocking; report `Received`,
    /// `QueueEmpty` or `Disconnected`.
    Poll,
    /// Start the command in a shell; report `Launched` or `LaunchFailed`.
    Launch(String),
    /// Wait for the command to end or for an event, whichever comes first;
    /// report `ChildExited`, `WaitFailed`, `Received` or `Disconnected`.
    Select,
    /// Ask the running command to terminate; report `Signalled` or
    /// `SignalFailed`.
    Interrupt,
    /// End with this outcome.
    Exit(Result<(), RunError>),
}

/// A [`RunError`] as a mathematical value.
pub enum ErrorModel {
    Watch(Seq<char>),
    Disconnected,
    Spawn(Seq<char>),
    Wait(Seq<char>),
    Signal(Seq<char>),
    Unexpected,
}

/// A [`RunEvent`] as a mathematical value.
pub enum RunEventModel {
    Received(EventKind),
    Disconnected,
    Slept,
    QueueEmpty,
    Launched,
    LaunchFailed(Seq<char>),
    ChildExited { code: Option<i32> },
    WaitFailed(Seq<char>),
    Signalled,
    SignalFailed(Seq<char>),
}

/// A [`RunAction`] as a mathematical value.
pub enum RunActionModel {
    Receive,
    Sleep { nanos: u64 },
    Poll,
    Launch(Seq<char>),
    Select,
    Interrupt,
    Exit(Result<(), ErrorModel>),
}

/// The supervisor's state as a mathematical value.
pub struct SupervisorModel {
    /// The command to run, if one is configured.
    pub command: Option<Seq<char>>,
    /// Whether a change interrupts the running command.
    pub interrupt: bool,
    /// The quiet period in nanoseconds.
    pub quiet: u64,
    pub phase: RunPhase,
    /// Whether a change arrived during the run at hand.
    pub changed: bool,
    /// Whether the run at hand has been sent its interrupt.
    pub signalled: bool,
    /// The outcome, once the supervisor has ended.
    pub outcome: Option<Result<(), ErrorModel>>,
}

impl View for RunError {
    type V = ErrorModel;

    open spec fn view(&self) -> ErrorModel {
        match self {
            RunError::Watch(cause) => ErrorModel::Watch(cause@),
            RunError::Disconnected => ErrorModel::Disconnected,
            RunError::Spawn(cause) => ErrorModel::Spawn(cause@),
            RunError::Wait(cause) => ErrorModel::Wait(cause@),
            RunError::Signal(cause) => ErrorModel::Signal(cause@),
            RunError::Unexpected => ErrorModel::Unexpected,
        }
    }
}

impl Clone for RunError {
    fn clone(&self) -> (copy: Self)
        ensures
            copy@ == self@,
    {
        match self {
            RunError::Watch(cause) => RunError::Watch(cause.clone()),
            RunError::Disconnected => RunError::Disconnected,
            RunError::Spawn(cause) => RunError::Spawn(cause.clone()),
            RunError::Wait(cause) => RunError::Wait(cause.clone()),
            RunError::Signal(cause) => RunError::Signal(cause.clone()),
            RunError::Unexpected => RunError::Unexpected,
        }
    }
}

/// An outcome as a mathematical value.
pub open spec fn outcome_model(outcome: Result<(), RunError>) -> Result<(), ErrorModel> {
    match outcome {
        Ok(_) => Ok(()),
        Err(error) => Err(error@),
    }
}

impl View for RunEvent {
    type V = RunEventModel;

    open spec fn view(&self) -> RunEventModel {
        match self {
            RunEvent::Received(event) => RunEventModel::Received(event@),
            RunEvent::Disconnected => RunEventModel::Disconnected,
            RunEvent::Slept => RunEventModel::Slept,
            RunEvent::QueueEmpty => RunEventModel::QueueEmpty,
            RunEvent::Launched => RunEventModel::Launched,
            RunEvent::LaunchFailed(cause) => RunEventModel::LaunchFailed(cause@),
            RunEvent::ChildExited { code } => RunEventModel::ChildExited { code: *code },
            RunEvent::WaitFailed(cause) => RunEventModel::WaitFailed(cause@),
            RunEvent::Signalled => RunEventModel::Signalled,
            RunEvent::SignalFailed(cause) => RunEventModel::SignalFailed(cause@),
        }
    }
}

impl View for RunAction {
    type V = RunActionModel;

    open spec fn view(&self) -> RunActionModel {
        match self {
            RunAction::Receive => RunActionModel::Receive,
            RunAction::Sleep { nanos } => RunActionModel::Sleep { nanos: *nanos },
            RunAction::Poll => RunActionModel::Poll,
            RunAction::Launch(command) => RunActionModel::Launch(command@),
            RunAction::Select => RunActionModel::Select,
            RunAction::Interrupt => RunActionModel::Interrupt,
            RunAction::Exit(outcome) => RunActionModel::Exit(outcome_model(*outcome)),
        }
    }
}

/// The state and action with which the supervisor ends.
pub open spec fn finished(s: SupervisorModel, outcome: Result<(), ErrorModel>) -> (
    SupervisorModel,
    RunActionModel,
) {
    (
        SupervisorModel { phase: RunPhase::Finished, outcome: Some(outcome), ..s },
        RunActionModel::Exit(outcome),
    )
}

/// The start of a run cycle: the quiet period, if a command is configured;
/// without one there is nothing to run and the supervisor ends in success.
pub open spec fn triggered(s: SupervisorModel) -> (SupervisorModel, RunActionModel) {
    if s.command is Some {
        (SupervisorModel { phase: RunPhase::Sleeping, ..s }, RunActionModel::Sleep { nanos: s.quiet })
    } else {
        finished(s, Ok(()))
    }
}

/// One step while the supervisor waits for an event: `Ready` and
/// `ChangeDetected` start a run cycle, a closed channel ends in success.
pub open spec fn waiting(s: SupervisorModel, e: RunEventModel) -> (SupervisorModel, RunActionModel) {
    match e {
        RunEventModel::Received(EventKind::Error(cause)) => finished(
            s,
            Err(ErrorModel::Watch(cause)),
        ),
        RunEventModel::Received(_) => triggered(s),
        RunEventModel::Disconnected => finished(s, Ok(())),
        _ => finished(s, Err(ErrorModel::Unexpected)),
    }
}

/// One step of the debounce: after the quiet period every queued event is
/// taken and dropped; once the queue is empty the command is launched.
pub open spec fn flushing(s: SupervisorModel, e: RunEventModel) -> (
    SupervisorModel,
    RunActionModel,
) {
    match e {
        RunEventModel::Received(EventKind::Error(cause)) => finished(
            s,
            Err(ErrorModel::Watch(cause)),
        ),
        RunEventModel::Slept => if s.phase == RunPhase::Sleeping {
            (SupervisorModel { phase: RunPhase::Draining, ..s }, RunActionModel::Poll)
        } else {
            finished(s, Err(ErrorModel::Unexpected))
        },
        RunEventModel::Received(_) => if s.phase == RunPhase::Draining {
            (s, RunActionModel::Poll)
        } else {
            finished(s, Err(ErrorModel::Unexpected))
        },
        RunEventModel::QueueEmpty | RunEventModel::Disconnected => if s.phase
            == RunPhase::Draining {
            match s.command {
                Some(command) => (
                    SupervisorModel { phase: RunPhase::Launching, ..s },
                    RunActionModel::Launch(command),
                ),
                None => finished(s, Ok(())),
            }
        } else {
            finished(s, Err(ErrorModel::Unexpected))
        },
        _ => finished(s, Err(ErrorModel::Unexpected)),
    }
}

/// One step of a command execution, from its launch to its end.
///
/// A change during the run is remembered. In interrupt mode the first one
/// also has the command interrupted; later ones do not. When the command
/// ends, whatever its exit code, a remembered change starts the next cycle at
/// once; without one the supervisor waits for the next event.
pub open spec fn cycling(s: SupervisorModel, e: RunEventModel) -> (SupervisorModel, RunActionModel) {
    match e {
        RunEventModel::Received(EventKind::Error(cause)) => finished(
            s,
            Err(ErrorModel::Watch(cause)),
        ),
        RunEventModel::Launched => if s.phase == RunPhase::Launching {
            (
                SupervisorModel {
                    phase: RunPhase::Running,
                    changed: false,
                    signalled: false,
                    ..s
                },
                RunActionModel::Select,
            )
        } else {
            finished(s, Err(ErrorModel::Unexpected))
        },
        RunEventModel::LaunchFailed(cause) => if s.phase == RunPhase::Launching {
            finished(s, Err(ErrorModel::Spawn(cause)))
        } else {
            finished(s, Err(ErrorModel::Unexpected))
        },
        RunEventModel::ChildExited { code } => if s.phase == RunPhase::Running {
            if s.changed {
                triggered(s)
            } else {
                (SupervisorModel { phase: RunPhase::Waiting, ..s }, RunActionModel::Receive)
            }
        } else {
            finished(s, Err(ErrorModel::Unexpected))
        },
        RunEventModel::WaitFailed(cause) => if s.phase == RunPhase::Running {
            finished(s, Err(ErrorModel::Wait(cause)))
        } else {
            finished(s, Err(ErrorModel::Unexpected))
        },
        RunEventModel::Received(_) => if s.phase == RunPhase::Running {
            if s.interrupt && !s.signalled {
                (
                    SupervisorModel { phase: RunPhase::Signalling, changed: true, ..s },
                    RunActionModel::Interrupt,
                )
            } else {
                (SupervisorModel { changed: true, ..s }, RunActionModel::Select)
            }
        } else {
            finished(s, Err(ErrorModel::Unexpected))
        },
        RunEventModel::Disconnected => if s.phase == RunPhase::Running {
            finished(s, Err(ErrorModel::Disconnected))
        } else {
            finished(s, Err(ErrorModel::Unexpected))
        },
        RunEventModel::Signalled => if s.phase == RunPhase::Signalling {
            (
                SupervisorModel { phase: RunPhase::Running, signalled: true, ..s },
                RunActionModel::Select,
            )
        } else {
            finished(s, Err(ErrorModel::Unexpected))
        },
        RunEventModel::SignalFailed(cause) => if s.phase == RunPhase::Signalling {
            finished(s, Err(ErrorModel::Signal(cause)))
        } else {
            finished(s, Err(ErrorModel::Unexpected))
        },
        _ => finished(s, Err(ErrorModel::Unexpected)),
    }
}

/// One step of the supervisor. Once it has ended, every step gives the same
/// outcome again.
pub open spec fn step(s: SupervisorModel, e: RunEventModel) -> (SupervisorModel, RunActionModel) {
    match s.phase {
        RunPhase::Waiting => waiting(s, e),
        RunPhase::Sleeping | RunPhase::Draining => flushing(s, e),
        RunPhase::Launching | RunPhase::Running | RunPhase::Signalling => cycling(s, e),
        RunPhase::Finished => (s, RunActionModel::Exit(reached(s))),
    }
}

/// The outcome that an ended supervisor has reached.
pub open spec fn reached(s: SupervisorModel) -> Result<(), ErrorModel> {
    match s.outcome {
        Some(outcome) => outcome,
        None => Ok(()),
    }
}

/// The supervisor's state before the first event.
pub open spec fn starting(command: Option<Seq<char>>, interrupt: bool, quiet: u64) -> SupervisorModel {
    SupervisorModel {
        command,
        interrupt,
        quiet,
        phase: RunPhase::Waiting,
        changed: false,
        signalled: false,
        outcome: None,
    }
}

/// The state of a run supervisor.
pub struct Supervisor {
    command: Option<String>,
    interrupt_on_changes: bool,
    quiet_period: u64,
    phase: RunPhase,
    changed_during_run: bool,
    signalled: bool,
    outcome: Option<Result<(), RunError>>,
}

impl View for Supervisor {
    type V = SupervisorModel;

    closed spec fn view(&self) -> SupervisorModel {
        SupervisorModel {
            command: match self.command {
                Some(command) => Some(command@),
                None => None,
            },
            interrupt: self.interrupt_on_changes,
            quiet: self.quiet_period,
            phase: self.phase,
            changed: self.changed_during_run,
            signalled: self.signalled,
            outcome: match self.outcome {
                Some(outcome) => Some(outcome_model(outcome)),
                None => None,
            },
        }
    }
}

impl Supervisor {
    /// A supervisor that waits for its first event. `quiet_period` is in
    /// nanoseconds.
    pub fn new(command: Option<String>, interrupt_on_changes: bool, quiet_period: u64) -> (supervisor:
        Self)
        ensures
            supervisor@ == starting(
                match command {
                    Some(c) => Some(c@),
                    None => None,
                },
                interrupt_on_changes,
                quiet_period,
            ),
    {
        Supervisor {
            command,
            interrupt_on_changes,
            quiet_period,
            phase: RunPhase::Waiting,
            changed_during_run: false,
            signalled: false,
            outcome: None,
        }
    }

    /// The phase the supervisor is in.
    pub fn phase(&self) -> (phase: RunPhase)
        ensures
            phase == self@.phase,
    {
        self.phase
    }

    /// Ends the supervisor with `outcome`.
    fn finish(&mut self, outcome: Result<(), RunError>) -> (action: RunAction)
        ensures
            (final(self)@, action@) == finished(old(self)@, outcome_model(outcome)),
    {
        let reported = match &outcome {
            Ok(_) => Ok(()),
            Err(error) => Err(error.clone()),
        };
        self.phase = RunPhase::Finished;
        self.outcome = Some(outcome);
        RunAction::Exit(reported)
    }

    /// Starts a run cycle, or ends in success where no command is configured.
    fn trigger(&mut self) -> (action: RunAction)
        ensures
            (final(self)@, action@) == triggered(old(self)@),
    {
        if self.command.is_some() {
            self.phase = RunPhase::Sleeping;
            RunAction::Sleep { nanos: self.quiet_period }
        } else {
            self.finish(Ok(()))
        }
    }

    /// Gives the outcome of an ended supervisor once more.
    fn repeat(&self) -> (action: RunAction)
        ensures
            action@ == RunActionModel::Exit(reached(self@)),
    {
        match &self.outcome {
            Some(Err(error)) => RunAction::Exit(Err(error.clone())),
            _ => RunAction::Exit(Ok(())),
        }
    }
}

/// The debounce step: handles an event while the quiet period runs or the
/// queue is emptied.
pub fn flush(supervisor: &mut Supervisor, event: RunEvent) -> (action: RunAction)
    ensures
        (final(supervisor)@, action@) == flushing(old(supervisor)@, event@),
{
    let phase = supervisor.phase;
    match event {
        RunEvent::Received(WatcherEvent::Error(cause)) => supervisor.finish(
            Err(RunError::Watch(cause)),
        ),
        RunEvent::Slept => {
            if phase == RunPhase::Sleeping {
                supervisor.phase = RunPhase::Draining;
                RunAction::Poll
            } else {
                supervisor.finish(Err(RunError::Unexpected))
            }
        },
        RunEvent::Received(_) => {
            if phase == RunPhase::Draining {
                RunAction::Poll
            } else {
                supervisor.finish(Err(RunError::Unexpected))
            }
        },
        RunEvent::QueueEmpty | RunEvent::Disconnected => {
            if phase == RunPhase::Draining {
                let command = match &supervisor.command {
                    Some(command) => Some(command.clone()),
                    None => None,
                };
                match command {
                    Some(command) => {
                        supervisor.phase = RunPhase::Launching;
                        RunAction::Launch(command)
                    },
                    None => supervisor.finish(Ok(())),
                }
            } else {
                supervisor.finish(Err(RunError::Unexpected))
            }
        },
        _ => supervisor.finish(Err(RunError::Unexpected)),
    }
}

/// The execution step: handles an event between the launch of the command and
/// its end.
pub fn process_change_cycle(supervisor: &mut Supervisor, event: RunEvent) -> (action: RunAction)
    ensures
        (final(supervisor)@, action@) == cycling(old(supervisor)@, event@),
{
    let phase = supervisor.phase;
    match event {
        RunEvent::Received(WatcherEvent::Error(cause)) => supervisor.finish(
            Err(RunError::Watch(cause)),
        ),
        RunEvent::Launched => {
            if phase == RunPhase::Launching {
                supervisor.phase = RunPhase::Running;
                supervisor.changed_during_run = false;
                supervisor.signalled = false;
                RunAction::Select
            } else {
                supervisor.finish(Err(RunError::Unexpected))
            }
        },
        RunEvent::LaunchFailed(cause) => {
            if phase == RunPhase::Launching {
                supervisor.finish(Err(RunError::Spawn(cause)))
            } else {
                supervisor.finish(Err(RunError::Unexpected))
            }
        },
        RunEvent::ChildExited { code: _ } => {
            if phase == RunPhase::Running {
                if supervisor.changed_during_run {
                    supervisor.trigger()
                } else {
                    supervisor.phase = RunPhase::Waiting;
                    RunAction::Receive
                }
            } else {
                supervisor.finish(Err(RunError::Unexpected))
            }
        },
        RunEvent::WaitFailed(cause) => {
            if phase == RunPhase::Running {
                supervisor.finish(Err(RunError::Wait(cause)))
            } else {
                supervisor.finish(Err(RunError::Unexpected))
            }
        },
        RunEvent::Received(_) => {
            if phase == RunPhase::Running {
                supervisor.changed_during_run = true;
                if supervisor.interrupt_on_changes && !supervisor.signalled {
                    supervisor.phase = RunPhase::Signalling;
                    RunAction::Interrupt
                } else {
                    RunAction::Select
                }
            } else {
                supervisor.finish(Err(RunError::Unexpected))
            }
        },
        RunEvent::Disconnected => {
            if phase == RunPhase::Running {
                supervisor.finish(Err(RunError::Disconnected))
            } else {
                supervisor.finish(Err(RunError::Unexpected))
            }
        },
        RunEvent::Signalled => {
            if phase == RunPhase::Signalling {
                supervisor.phase = RunPhase::Running;
                supervisor.signalled = true;
                RunAction::Select
            } else {
                supervisor.finish(Err(RunError::Unexpected))
            }
        },
        RunEvent::SignalFailed(cause) => {
            if phase == RunPhase::Signalling {
                supervisor.finish(Err(RunError::Signal(cause)))
            } else {
                supervisor.finish(Err(RunError::Unexpected))
            }
        },
        _ => supervisor.finish(Err(RunError::Unexpected)),
    }
}

/// Advances the supervisor by one event and says what to do next.
pub fn run_on_change(supervisor: &mut Supervisor, event: RunEvent) -> (action: RunAction)
    ensures
        (final(supervisor)@, action@) == step(old(supervisor)@, event@),
{
    match supervisor.phase {
        RunPhase::Waiting => {
            match event {
                RunEvent::Received(WatcherEvent::Error(cause)) => supervisor.finish(
                    Err(RunError::Watch(cause)),
                ),
                RunEvent::Received(_) => supervisor.trigger(),
                RunEvent::Disconnected => supervisor.finish(Ok(())),
                _ => supervisor.finish(Err(RunError::Unexpected)),
            }
        },
        RunPhase::Sleeping | RunPhase::Draining => flush(supervisor, event),
        RunPhase::Launching | RunPhase::Running | RunPhase::Signalling => process_change_cycle(
            supervisor,
            event,
        ),
        RunPhase::Finished => supervisor.repeat(),
    }
}

} // verus!
