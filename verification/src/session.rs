//! The session: started by the press of a button, ended by whatever comes
//! first.
//!
//! A session is the radio host together with the tasks that live on it. It
//! is built afresh for every run and dropped as a whole at the end, so that
//! no connection, subscription or server association is carried over.

use vstd::prelude::*;

verus! {

/// Whether a session runs.
#[derive(Clone, Copy, Debug, PartialEq, Eq, Structural)]
pub enum SessionPhase {
    /// No session runs; the button is waited for.
    Idle,
    /// A session runs.
    Running,
}

/// What happened.
#[derive(Clone, Copy, Debug, PartialEq, Eq, Structural)]
pub enum SessionEvent {
    /// The button was pressed.
    Trigger,
    /// The runner of the radio host returned.
    RunnerEnded,
    /// The indicator task returned.
    IndicatorEnded,
    /// The task of the two BLE roles returned.
    ManagerEnded,
}

/// What to do next.
#[derive(Clone, Copy, Debug, PartialEq, Eq, Structural)]
pub enum SessionCommand {
    /// Go on waiting for the button.
    AwaitTrigger,
    /// Build a fresh radio host and run its runner, the indicator, the BLE
    /// roles and a wait for the button side by side until the first returns.
    Start,
    /// Drop all that belongs to the session, the radio host included, then
    /// wait for the button.
    Stop,
}

/// Starts and stops sessions.
pub struct SessionSupervisor {
    phase: SessionPhase,
}

/// Where `event` leads from `phase`: the button starts a session while none
/// runs, and whatever happens while one runs ends it.
pub open spec fn session_next(phase: SessionPhase, event: SessionEvent) -> SessionPhase {
    match (phase, event) {
        (SessionPhase::Idle, SessionEvent::Trigger) => SessionPhase::Running,
        (SessionPhase::Idle, _) => SessionPhase::Idle,
        (SessionPhase::Running, _) => SessionPhase::Idle,
    }
}

/// The answer to `event` in `phase`.
pub open spec fn session_command(phase: SessionPhase, event: SessionEvent) -> SessionCommand {
    match (phase, session_next(phase, event)) {
        (SessionPhase::Idle, SessionPhase::Running) => SessionCommand::Start,
        (SessionPhase::Running, _) => SessionCommand::Stop,
        _ => SessionCommand::AwaitTrigger,
    }
}

/// The phase after a run of events.
pub open spec fn session_after(phase: SessionPhase, events: Seq<SessionEvent>) -> SessionPhase
    decreases events.len(),
{
    if events.len() == 0 {
        phase
    } else {
        session_next(session_after(phase, events.drop_last()), events.last())
    }
}

/// How often a command was given during a run of events.
pub open spec fn times_given(
    phase: SessionPhase,
    events: Seq<SessionEvent>,
    command: SessionCommand,
) -> int
    decreases events.len(),
{
    if events.len() == 0 {
        0
    } else {
        let before = session_after(phase, events.drop_last());
        times_given(phase, events.drop_last(), command) + if session_command(
            before,
            events.last(),
        ) == command {
            1int
        } else {
            0int
        }
    }
}

impl View for SessionSupervisor {
    type V = SessionPhase;

    closed spec fn view(&self) -> SessionPhase {
        self.phase
    }
}

impl SessionSupervisor {
    /// A supervisor with no session running.
    pub fn new() -> (r: Self)
        ensures
            r@ == SessionPhase::Idle,
    {
        SessionSupervisor { phase: SessionPhase::Idle }
    }

    /// Whether a session runs.
    pub fn phase(&self) -> (r: SessionPhase)
        ensures
            r == self@,
    {
        self.phase
    }

    /// Takes an event and answers with what to do.
    pub fn step(&mut self, event: SessionEvent) -> (r: SessionCommand)
        ensures
            final(self)@ == session_next(old(self)@, event),
            r == session_command(old(self)@, event),
    {
        match (self.phase, event) {
            (SessionPhase::Idle, SessionEvent::Trigger) => {
                self.phase = SessionPhase::Running;
                SessionCommand::Start
            },
            (SessionPhase::Idle, _) => SessionCommand::AwaitTrigger,
            (SessionPhase::Running, _) => {
                self.phase = SessionPhase::Idle;
                SessionCommand::Stop
            },
        }
    }
}

/// Sessions never overlap: from an idle start, after any run of events every
/// session that was started was stopped again, but for the one that runs.
pub proof fn lemma_sessions_never_overlap(events: Seq<SessionEvent>)
    ensures
        times_given(SessionPhase::Idle, events, SessionCommand::Start) == times_given(
            SessionPhase::Idle,
            events,
            SessionCommand::Stop,
        ) + if session_after(SessionPhase::Idle, events) == SessionPhase::Running {
            1int
        } else {
            0int
        },
    decreases events.len(),
{
    if events.len() > 0 {
        lemma_sessions_never_overlap(events.drop_last());
    }
}

} // verus!
