//! The connection supervisor: it keeps one connection alive, and tells the
//! rest of the application when the server was reached and when it was
//! lost.
//!
//! The supervisor connects, and while the connection lives it asks at a
//! fixed interval whether it still does. When the connection is lost, or
//! cannot be made, the supervisor says so and tries again, without end.
//! Connecting, asking and sleeping are the caller's part: the supervisor
//! takes what happened and says what to do next.

use vstd::prelude::*;

verus! {

/// The name of the event that carries the state of the connection.
pub const PORTAPI_STATUS_EVENT: &'static str = "portapi::status";

/// Where the server listens.
pub const PORTAPI_ENDPOINT: &'static str = "ws://127.0.0.1:817/api/database/v1";

/// The seconds between two looks at a living connection.
pub const POLL_INTERVAL_SECS: u64 = 1;

/// The seconds between the loss of a connection, or a failed attempt to
/// connect, and the next attempt.
pub const RETRY_INTERVAL_SECS: u64 = 2;

/// What the application is told of the connection.
#[derive(Clone, Copy, PartialEq, Eq, Debug, Structural)]
pub enum Status {
    Connected,
    Disconnected,
}

impl Status {
    /// The word that stands for the status in a notification.
    pub open spec fn word(self) -> Seq<char> {
        match self {
            Status::Connected => "connected"@,
            Status::Disconnected => "disconnected"@,
        }
    }

    /// The word that stands for the status in a notification.
    pub fn as_str(&self) -> (word: &'static str)
        ensures
            word@ == self.word(),
    {
        match self {
            Status::Connected => "connected",
            Status::Disconnected => "disconnected",
        }
    }
}

/// Where the supervisor stands.
#[derive(Clone, Copy, PartialEq, Eq, Debug, Structural)]
pub enum Phase {
    /// There is no connection, and none is being made.
    Disconnected,
    /// An attempt to connect is under way.
    Connecting,
    /// The connection lives, as far as the last look could tell.
    Connected,
}

/// What the caller reports to the supervisor.
#[derive(Clone, Copy, PartialEq, Eq, Debug, Structural)]
pub enum Event {
    /// The sleep that the supervisor asked for is over. This is also the
    /// first event of all.
    Woke,
    /// The attempt to connect gave a connection.
    ConnectSucceeded,
    /// The attempt to connect failed.
    ConnectFailed,
    /// The connection was looked at: `closed` says whether it has ended.
    Polled { closed: bool },
}

/// What the supervisor asks the caller to do next.
#[derive(Clone, Copy, PartialEq, Eq, Debug, Structural)]
pub enum Action {
    /// Try to connect, and report `ConnectSucceeded` or `ConnectFailed`.
    Connect,
    /// Look whether the connection has ended, and report `Polled`.
    Poll,
    /// Sleep for so many seconds, and report `Woke`.
    Sleep(u64),
}

/// The answer of the supervisor to an event.
#[derive(Clone, Copy, PartialEq, Eq, Debug, Structural)]
pub struct Step {
    /// What the application is to be told, if anything.
    pub notify: Option<Status>,
    /// What to do next.
    pub action: Action,
}

/// The phase that follows `phase` on `event`, or nothing where the event
/// does not belong to the phase.
pub open spec fn next_phase(phase: Phase, event: Event) -> Option<Phase> {
    match (phase, event) {
        (Phase::Disconnected, Event::Woke) => Some(Phase::Connecting),
        (Phase::Connecting, Event::ConnectSucceeded) => Some(Phase::Connected),
        (Phase::Connecting, Event::ConnectFailed) => Some(Phase::Disconnected),
        (Phase::Connected, Event::Polled { closed }) => Some(
            if closed {
                Phase::Disconnected
            } else {
                Phase::Connected
            },
        ),
        (Phase::Connected, Event::Woke) => Some(Phase::Connected),
        _ => None,
    }
}

/// The answer to `event` in `phase`, where the event belongs to the phase.
///
/// A new connection is announced and looked at right away. A living
/// connection is looked at again after the poll interval. A lost connection
/// and a failed attempt are announced, and the next attempt follows after
/// the retry interval: always the same interval, and always another
/// attempt.
pub open spec fn answer(phase: Phase, event: Event) -> Step {
    match (phase, event) {
        (Phase::Connecting, Event::ConnectSucceeded) => Step {
            notify: Some(Status::Connected),
            action: Action::Poll,
        },
        (Phase::Connecting, Event::ConnectFailed) => Step {
            notify: Some(Status::Disconnected),
            action: Action::Sleep(RETRY_INTERVAL_SECS),
        },
        (Phase::Connected, Event::Polled { closed }) => if closed {
            Step { notify: Some(Status::Disconnected), action: Action::Sleep(RETRY_INTERVAL_SECS) }
        } else {
            Step { notify: None, action: Action::Sleep(POLL_INTERVAL_SECS) }
        },
        (Phase::Connected, Event::Woke) => Step { notify: None, action: Action::Poll },
        _ => Step { notify: None, action: Action::Connect },
    }
}

/// The supervisor of the connection to the server.
pub struct Supervisor {
    phase: Phase,
}

impl Supervisor {
    /// Where the supervisor stands.
    pub closed spec fn spec_phase(&self) -> Phase {
        self.phase
    }

    /// A supervisor that has not yet tried to connect.
    pub fn new() -> (supervisor: Self)
        ensures
            supervisor.spec_phase() == Phase::Disconnected,
    {
        Supervisor { phase: Phase::Disconnected }
    }

    /// Where the supervisor stands.
    #[verifier::when_used_as_spec(spec_phase)]
    pub fn phase(&self) -> (phase: Phase)
        ensures
            phase == self.spec_phase(),
    {
        self.phase
    }

    /// Whether the server is reachable: whether a connection lives.
    pub fn is_reachable(&self) -> (reachable: bool)
        ensures
            reachable <==> self.phase() == Phase::Connected,
    {
        self.phase == Phase::Connected
    }

    /// Takes an event and says what follows from it. An event that does not
    /// belong to the phase is passed over: the supervisor stays as it is
    /// and answers nothing.
    pub fn step(&mut self, event: Event) -> (step: Option<Step>)
        ensures
            match next_phase(old(self).phase(), event) {
                Some(phase) => final(self).phase() == phase && step == Some(
                    answer(old(self).phase(), event),
                ),
                None => final(self).phase() == old(self).phase() && step is None,
            },
    {
        let (phase, step) = match (self.phase, event) {
            (Phase::Disconnected, Event::Woke) => (
                Phase::Connecting,
                Step { notify: None, action: Action::Connect },
            ),
            (Phase::Connecting, Event::ConnectSucceeded) => (
                Phase::Connected,
                Step { notify: Some(Status::Connected), action: Action::Poll },
            ),
            (Phase::Connecting, Event::ConnectFailed) => (
                Phase::Disconnected,
                Step {
                    notify: Some(Status::Disconnected),
                    action: Action::Sleep(RETRY_INTERVAL_SECS),
                },
            ),
            (Phase::Connected, Event::Polled { closed: true }) => (
                Phase::Disconnected,
                Step {
                    notify: Some(Status::Disconnected),
                    action: Action::Sleep(RETRY_INTERVAL_SECS),
                },
            ),
            (Phase::Connected, Event::Polled { closed: false }) => (
                Phase::Connected,
                Step { notify: None, action: Action::Sleep(POLL_INTERVAL_SECS) },
            ),
            (Phase::Connected, Event::Woke) => (
                Phase::Connected,
                Step { notify: None, action: Action::Poll },
            ),
            _ => {
                return None;
            },
        };
        self.phase = phase;
        Some(step)
    }
}

/// Whether the server is reachable, as the supervisor of the connection
/// knows it.
pub fn is_portapi_reachable(supervisor: &Supervisor) -> (reachable: bool)
    ensures
        reachable <==> supervisor.phase() == Phase::Connected,
{
    supervisor.is_reachable()
}

/// The application is told of every change between a living connection
/// and none, and of nothing else: "connected" exactly when a connection was
/// made, "disconnected" exactly when one was lost or could not be made.
pub proof fn lemma_notifications(phase: Phase, event: Event)
    requires
        next_phase(phase, event) is Some,
    ensures
        answer(phase, event).notify == Some(Status::Connected) <==> phase != Phase::Connected
            && next_phase(phase, event) == Some(Phase::Connected),
        answer(phase, event).notify == Some(Status::Disconnected) <==> next_phase(phase, event)
            == Some(Phase::Disconnected),
{
}

/// The loss of a connection is announced once before the next attempt to
/// connect: the look that finds the connection ended announces it, and the
/// only step that can follow starts the attempt and announces nothing.
pub proof fn lemma_loss_announced_once(event: Event)
    ensures
        next_phase(Phase::Connected, Event::Polled { closed: true }) == Some(Phase::Disconnected),
        answer(Phase::Connected, Event::Polled { closed: true }).notify == Some(
            Status::Disconnected,
        ),
        next_phase(Phase::Disconnected, event) is Some ==> {
            &&& event == Event::Woke
            &&& next_phase(Phase::Disconnected, event) == Some(Phase::Connecting)
            &&& answer(Phase::Disconnected, event) == (Step {
                notify: None,
                action: Action::Connect,
            })
        },
{
}

/// The supervisor never comes to rest: in every phase some event belongs
/// to it, and an attempt to connect is asked for exactly on entering the
/// connecting phase.
pub proof fn lemma_never_at_rest(phase: Phase, event: Event)
    ensures
        exists|some: Event| next_phase(phase, some) is Some,
        next_phase(phase, event) is Some ==> (answer(phase, event).action == Action::Connect
            <==> next_phase(phase, event) == Some(Phase::Connecting)),
{
    match phase {
        Phase::Disconnected => {
            assert(next_phase(phase, Event::Woke) is Some);
        },
        Phase::Connecting => {
            assert(next_phase(phase, Event::ConnectFailed) is Some);
        },
        Phase::Connected => {
            assert(next_phase(phase, Event::Woke) is Some);
        },
    }
}

} // verus!
