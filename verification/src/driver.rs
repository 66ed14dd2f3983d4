//! Bringing up the browser driver: the decisions, without the process.
//!
//! The driver is a child process that must listen on a well-known local
//! port before any page is rendered. Starting it is a dialogue: the caller
//! performs one [`StartupAction`] at a time and reports what came of it as
//! a [`StartupEvent`]; [`step`] decides what happens next. The dialogue is
//! bounded: the port is probed at most [`MAX_POLLS`] times while the child
//! is given time to bind it.

use crate::error::{Error, ErrorKind, ErrorKindView, ErrorView};
use vstd::prelude::*;

verus! {

/// The local port on which the driver listens.
pub const DRIVER_PORT: u16 = 4444;

/// The address at which a session with the driver is opened.
pub const DRIVER_URL: &'static str = "http://localhost:4444";

/// The argument that tells the driver its port.
pub const DRIVER_PORT_ARGUMENT: &'static str = "--port=4444";

/// The name of the driver's executable.
pub const DRIVER_PROGRAM: &'static str = "chromedriver";

/// How often the port is probed while waiting for the child to bind it.
pub const MAX_POLLS: u32 = 100;

/// How long to sleep between two probes, in milliseconds.
pub const POLL_INTERVAL_MILLIS: u64 = 10;

/// The line of context that every failure of the startup carries.
pub open spec fn startup_context() -> Seq<char> {
    "starting chromedriver"@
}

/// What the startup is waiting for.
#[derive(Debug, Clone, Copy, PartialEq, Eq, Structural)]
pub enum StartupState {
    /// The port is probed before anything is started.
    FirstProbe,
    /// The child is being spawned.
    Spawn,
    /// The port is probed for the `round`-th time since the spawn, counted
    /// from zero.
    LoopProbe { round: u32 },
    /// The port was still free in this round; the child is asked whether it
    /// has exited.
    ChildCheck { round: u32 },
    /// The child is still running; the caller sleeps before the next round.
    Sleep { round: u32 },
    /// Every round has passed; the port is probed one last time.
    LastProbe,
    /// The child never bound the port and is being killed.
    Kill,
    /// The startup has ended, in `Ready` or in `Fail`.
    Finished,
}

/// What came of the action that the caller performed.
#[derive(Debug)]
pub enum StartupEvent {
    /// The port was probed; `in_use` tells whether something listens on it.
    Port { in_use: bool },
    /// The child was spawned.
    Spawned,
    /// The child was asked for its status; `exited` tells whether it has
    /// ended.
    ChildStatus { exited: bool },
    /// The sleep is over.
    Slept,
    /// The child was killed.
    Killed,
    /// The action failed in the operating system; the payload renders the
    /// cause.
    Failed(String),
}

/// The mathematical value of a [`StartupEvent`].
pub enum StartupEventView {
    Port { in_use: bool },
    Spawned,
    ChildStatus { exited: bool },
    Slept,
    Killed,
    Failed(Seq<char>),
}

impl View for StartupEvent {
    type V = StartupEventView;

    open spec fn view(&self) -> StartupEventView {
        match self {
            StartupEvent::Port { in_use } => StartupEventView::Port { in_use: *in_use },
            StartupEvent::Spawned => StartupEventView::Spawned,
            StartupEvent::ChildStatus { exited } => StartupEventView::ChildStatus {
                exited: *exited,
            },
            StartupEvent::Slept => StartupEventView::Slept,
            StartupEvent::Killed => StartupEventView::Killed,
            StartupEvent::Failed(cause) => StartupEventView::Failed(cause@),
        }
    }
}

/// What the caller is to do next.
#[derive(Debug)]
pub enum StartupAction {
    /// Find out whether something listens on [`DRIVER_PORT`].
    ProbePort,
    /// Spawn the driver with its port argument.
    SpawnChild,
    /// Ask the child whether it has exited, without waiting.
    PollChild,
    /// Sleep for [`POLL_INTERVAL_MILLIS`].
    Sleep,
    /// Kill the child.
    KillChild,
    /// The driver listens: hand the child to the caller.
    Ready,
    /// The startup failed.
    Fail(Error),
    /// The startup has ended before; there is nothing to do.
    Nothing,
}

/// The mathematical value of a [`StartupAction`].
pub enum StartupActionView {
    ProbePort,
    SpawnChild,
    PollChild,
    Sleep,
    KillChild,
    Ready,
    Fail(ErrorView),
    Nothing,
}

impl View for StartupAction {
    type V = StartupActionView;

    open spec fn view(&self) -> StartupActionView {
        match self {
            StartupAction::ProbePort => StartupActionView::ProbePort,
            StartupAction::SpawnChild => StartupActionView::SpawnChild,
            StartupAction::PollChild => StartupActionView::PollChild,
            StartupAction::Sleep => StartupActionView::Sleep,
            StartupAction::KillChild => StartupActionView::KillChild,
            StartupAction::Ready => StartupActionView::Ready,
            StartupAction::Fail(error) => StartupActionView::Fail(error@),
            StartupAction::Nothing => StartupActionView::Nothing,
        }
    }
}

impl StartupState {
    /// Whether the state can occur: a round is one of the [`MAX_POLLS`].
    pub open spec fn valid(self) -> bool {
        match self {
            StartupState::LoopProbe { round } => round < MAX_POLLS,
            StartupState::ChildCheck { round } => round < MAX_POLLS,
            StartupState::Sleep { round } => round < MAX_POLLS,
            _ => true,
        }
    }

    /// The action whose outcome the state waits for.
    pub open spec fn awaited(self) -> StartupActionView {
        match self {
            StartupState::FirstProbe => StartupActionView::ProbePort,
            StartupState::Spawn => StartupActionView::SpawnChild,
            StartupState::LoopProbe { round } => StartupActionView::ProbePort,
            StartupState::ChildCheck { round } => StartupActionView::PollChild,
            StartupState::Sleep { round } => StartupActionView::Sleep,
            StartupState::LastProbe => StartupActionView::ProbePort,
            StartupState::Kill => StartupActionView::KillChild,
            StartupState::Finished => StartupActionView::Nothing,
        }
    }

    /// Whether `event` is an outcome of the action that the state waits for.
    pub open spec fn expects(self, event: StartupEventView) -> bool {
        match self {
            StartupState::FirstProbe => event is Port,
            StartupState::Spawn => event is Spawned || event is Failed,
            StartupState::LoopProbe { round } => event is Port,
            StartupState::ChildCheck { round } => event is ChildStatus || event is Failed,
            StartupState::Sleep { round } => event is Slept,
            StartupState::LastProbe => event is Port,
            StartupState::Kill => event is Killed || event is Failed,
            StartupState::Finished => false,
        }
    }

    /// An upper bound on the number of expected events that can still
    /// follow.
    pub open spec fn remaining(self) -> nat {
        match self {
            StartupState::FirstProbe => 3 * MAX_POLLS as nat + 4,
            StartupState::Spawn => 3 * MAX_POLLS as nat + 3,
            StartupState::LoopProbe { round } => (3 * (MAX_POLLS - round) + 2) as nat,
            StartupState::ChildCheck { round } => (3 * (MAX_POLLS - round) + 1) as nat,
            StartupState::Sleep { round } => (3 * (MAX_POLLS - round)) as nat,
            StartupState::LastProbe => 2,
            StartupState::Kill => 1,
            StartupState::Finished => 0,
        }
    }

    /// The state and the action that follow `event`. An event that the
    /// state does not expect changes nothing: the awaited action is asked
    /// for again.
    pub open spec fn after(self, event: StartupEventView) -> (StartupState, StartupActionView) {
        match (self, event) {
            (StartupState::FirstProbe, StartupEventView::Port { in_use }) => if in_use {
                (
                    StartupState::Finished,
                    StartupActionView::Fail(
                        ErrorView::other("Port 4444 is already in use"@).with(startup_context()),
                    ),
                )
            } else {
                (StartupState::Spawn, StartupActionView::SpawnChild)
            },
            (StartupState::Spawn, StartupEventView::Spawned) => (
                StartupState::LoopProbe { round: 0 },
                StartupActionView::ProbePort,
            ),
            (StartupState::Spawn, StartupEventView::Failed(cause)) => (
                StartupState::Finished,
                StartupActionView::Fail(ErrorView::caused_by(ErrorKindView::Io(cause))),
            ),
            (StartupState::LoopProbe { round }, StartupEventView::Port { in_use }) => if in_use {
                (StartupState::Finished, StartupActionView::Ready)
            } else {
                (StartupState::ChildCheck { round }, StartupActionView::PollChild)
            },
            (StartupState::ChildCheck { round }, StartupEventView::ChildStatus { exited }) => if exited {
                (
                    StartupState::Finished,
                    StartupActionView::Fail(
                        ErrorView::other("Chromedriver has stopped unexpectedly"@).with(
                            startup_context(),
                        ),
                    ),
                )
            } else {
                (StartupState::Sleep { round }, StartupActionView::Sleep)
            },
            (StartupState::ChildCheck { round }, StartupEventView::Failed(cause)) => (
                StartupState::Finished,
                StartupActionView::Fail(
                    ErrorView::caused_by(ErrorKindView::Io(cause)).with(
                        startup_context(),
                    ),
                ),
            ),
            (StartupState::Sleep { round }, StartupEventView::Slept) => if round + 1 < MAX_POLLS {
                (StartupState::LoopProbe { round: (round + 1) as u32 }, StartupActionView::ProbePort)
            } else {
                (StartupState::LastProbe, StartupActionView::ProbePort)
            },
            (StartupState::LastProbe, StartupEventView::Port { in_use }) => if in_use {
                (StartupState::Finished, StartupActionView::Ready)
            } else {
                (StartupState::Kill, StartupActionView::KillChild)
            },
            (StartupState::Kill, StartupEventView::Killed) => (
                StartupState::Finished,
                StartupActionView::Fail(
                    ErrorView::other("Chromedriver failed to bind to port 4444"@).with(
                        startup_context(),
                    ),
                ),
            ),
            (StartupState::Kill, StartupEventView::Failed(cause)) => (
                StartupState::Finished,
                StartupActionView::Fail(ErrorView::caused_by(ErrorKindView::Io(cause))),
            ),
            _ => (self, self.awaited()),
        }
    }
}

/// A failure of the startup described by `message`.
fn startup_failure(message: &str) -> (r: StartupAction)
    ensures
        r@ == StartupActionView::Fail(ErrorView::other(message@).with(startup_context())),
{
    StartupAction::Fail(Error::other(message).add_context("starting chromedriver"))
}

/// The action that `state` waits for.
fn awaited_action(state: StartupState) -> (r: StartupAction)
    ensures
        r@ == state.awaited(),
{
    match state {
        StartupState::FirstProbe => StartupAction::ProbePort,
        StartupState::Spawn => StartupAction::SpawnChild,
        StartupState::LoopProbe { round } => StartupAction::ProbePort,
        StartupState::ChildCheck { round } => StartupAction::PollChild,
        StartupState::Sleep { round } => StartupAction::Sleep,
        StartupState::LastProbe => StartupAction::ProbePort,
        StartupState::Kill => StartupAction::KillChild,
        StartupState::Finished => StartupAction::Nothing,
    }
}

/// Where the startup begins: the port is probed before anything is started.
pub fn begin() -> (r: (StartupState, StartupAction))
    ensures
        r.0 == StartupState::FirstProbe,
        r.1@ == StartupActionView::ProbePort,
{
    (StartupState::FirstProbe, StartupAction::ProbePort)
}

/// Decides what follows `event` in `state`.
///
/// The port must be free before the driver is spawned. After the spawn the
/// port is probed up to [`MAX_POLLS`] times; as soon as something listens
/// the startup is `Ready`. Between two probes the child is asked whether it
/// has exited, which fails the startup, and the caller sleeps. If nothing
/// listens after the last round, the child is killed and the startup fails.
pub fn step(state: StartupState, event: StartupEvent) -> (r: (StartupState, StartupAction))
    ensures
        r.0 == state.after(event@).0,
        r.1@ == state.after(event@).1,
        state.valid() ==> r.0.valid(),
        state.valid() && state.expects(event@) ==> r.0.remaining() < state.remaining(),
{
    match (state, event) {
        (StartupState::FirstProbe, StartupEvent::Port { in_use }) => {
            if in_use {
                (StartupState::Finished, startup_failure("Port 4444 is already in use"))
            } else {
                (StartupState::Spawn, StartupAction::SpawnChild)
            }
        },
        (StartupState::Spawn, StartupEvent::Spawned) => {
            (StartupState::LoopProbe { round: 0 }, StartupAction::ProbePort)
        },
        (StartupState::Spawn, StartupEvent::Failed(cause)) => {
            (StartupState::Finished, StartupAction::Fail(Error::new(ErrorKind::Io(cause))))
        },
        (StartupState::LoopProbe { round }, StartupEvent::Port { in_use }) => {
            if in_use {
                (StartupState::Finished, StartupAction::Ready)
            } else {
                (StartupState::ChildCheck { round }, StartupAction::PollChild)
            }
        },
        (StartupState::ChildCheck { round }, StartupEvent::ChildStatus { exited }) => {
            if exited {
                (StartupState::Finished, startup_failure("Chromedriver has stopped unexpectedly"))
            } else {
                (StartupState::Sleep { round }, StartupAction::Sleep)
            }
        },
        (StartupState::ChildCheck { round }, StartupEvent::Failed(cause)) => {
            (
                StartupState::Finished,
                StartupAction::Fail(
                    Error::new(ErrorKind::Io(cause)).add_context("starting chromedriver"),
                ),
            )
        },
        (StartupState::Sleep { round }, StartupEvent::Slept) => {
            if round < MAX_POLLS - 1 {
                (StartupState::LoopProbe { round: round + 1 }, StartupAction::ProbePort)
            } else {
                (StartupState::LastProbe, StartupAction::ProbePort)
            }
        },
        (StartupState::LastProbe, StartupEvent::Port { in_use }) => {
            if in_use {
                (StartupState::Finished, StartupAction::Ready)
            } else {
                (StartupState::Kill, StartupAction::KillChild)
            }
        },
        (StartupState::Kill, StartupEvent::Killed) => {
            (StartupState::Finished, startup_failure("Chromedriver failed to bind to port 4444"))
        },
        (StartupState::Kill, StartupEvent::Failed(cause)) => {
            (StartupState::Finished, StartupAction::Fail(Error::new(ErrorKind::Io(cause))))
        },
        (state, _) => (state, awaited_action(state)),
    }
}

/// The startup ends: every expected event brings a valid state strictly
/// nearer to `Finished`, so no more than `3 * MAX_POLLS + 4` of them can
/// follow one another. An event that is not expected changes nothing.
pub proof fn law_startup_is_bounded(state: StartupState, event: StartupEventView)
    requires
        state.valid(),
    ensures
        state.after(event).0.valid(),
        state.expects(event) ==> state.after(event).0.remaining() < state.remaining(),
        !state.expects(event) ==> state.after(event) == (state, state.awaited()),
        state.remaining() <= 3 * MAX_POLLS + 4,
{
}

/// The driver is reported ready only when a probe after the spawn found
/// the port in use.
pub proof fn law_ready_only_when_port_in_use(state: StartupState, event: StartupEventView)
    requires
        state.after(event).1 is Ready,
    ensures
        event == (StartupEventView::Port { in_use: true }),
        state is LoopProbe || state is LastProbe,
{
}

} // verus!
