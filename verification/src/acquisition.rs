//! The decisions of the acquisition loop. The loop itself opens the device,
//! reads, stores and sleeps; what to do next after each of these is decided
//! here.

use vstd::prelude::*;
use crate::session::{outcome_of, read_once, ReadingOutcome};

verus! {

/// Milliseconds between two cycles.
pub const POLL_INTERVAL_MS: u64 = 1000;

/// Exit status of the process after a fatal condition.
pub const EXIT_FATAL: i32 = 1;

/// The two states of the loop. Nothing leads out of `Terminated`.
#[derive(Debug, Clone, Copy, PartialEq, Eq)]
pub enum LoopState {
    Running,
    Terminated,
}

/// What has just happened outside.
#[derive(Debug, PartialEq, Eq)]
pub enum Event {
    /// The device is open and the initialization report is written.
    SessionOpened,
    /// The device could not be opened, or the initialization report could
    /// not be written.
    SessionFailed,
    /// One blocking read of the transport has returned.
    FrameRead(Result<[u8; 8], String>),
    /// The outcome of the cycle is in the shared state.
    Published,
    /// The shared state could not be acquired for writing.
    StoreUnavailable,
    /// The pause between two cycles is over.
    Rested,
}

/// What to do next outside.
#[derive(Debug, PartialEq, Eq)]
pub enum Action {
    /// Open the device and write the initialization report.
    OpenSession,
    /// Perform one blocking read of the transport.
    ReadFrame,
    /// Record this outcome in the shared state.
    Publish(ReadingOutcome),
    /// Sleep for this many milliseconds.
    Rest(u64),
    /// End the process with this status.
    Exit(i32),
}

/// The transition function of the loop. While running, an opened session or
/// a finished pause is followed by a read, a read by the publication of its
/// outcome, and a publication by the pause. A session that cannot be opened
/// and a shared state that cannot be acquired are fatal. Once terminated,
/// the loop only asks to exit.
pub open spec fn next_step(state: LoopState, event: Event) -> (LoopState, Action) {
    match state {
        LoopState::Terminated => (LoopState::Terminated, Action::Exit(EXIT_FATAL)),
        LoopState::Running => match event {
            Event::SessionOpened => (LoopState::Running, Action::ReadFrame),
            Event::SessionFailed => (LoopState::Terminated, Action::Exit(EXIT_FATAL)),
            Event::FrameRead(read) => (LoopState::Running, Action::Publish(outcome_of(read))),
            Event::Published => (LoopState::Running, Action::Rest(POLL_INTERVAL_MS)),
            Event::StoreUnavailable => (LoopState::Terminated, Action::Exit(EXIT_FATAL)),
            Event::Rested => (LoopState::Running, Action::ReadFrame),
        },
    }
}

/// The state in which the loop starts, and its first action.
pub fn start() -> (first: (LoopState, Action))
    ensures
        first == (LoopState::Running, Action::OpenSession),
{
    (LoopState::Running, Action::OpenSession)
}

/// Decides what follows an event.
pub fn step(state: LoopState, event: Event) -> (next: (LoopState, Action))
    ensures
        next == next_step(state, event),
{
    match state {
        LoopState::Terminated => (LoopState::Terminated, Action::Exit(EXIT_FATAL)),
        LoopState::Running => match event {
            Event::SessionOpened => (LoopState::Running, Action::ReadFrame),
            Event::SessionFailed => (LoopState::Terminated, Action::Exit(EXIT_FATAL)),
            Event::FrameRead(read) => (LoopState::Running, Action::Publish(read_once(read))),
            Event::Published => (LoopState::Running, Action::Rest(POLL_INTERVAL_MS)),
            Event::StoreUnavailable => (LoopState::Terminated, Action::Exit(EXIT_FATAL)),
            Event::Rested => (LoopState::Running, Action::ReadFrame),
        },
    }
}

/// The loop ends only on a fatal event, it never resumes, and it asks to
/// exit exactly when it has ended, always with the fatal status.
pub proof fn lemma_loop_runs_until_fatal(state: LoopState, event: Event)
    ensures
        next_step(state, event).0 == LoopState::Terminated <==> state == LoopState::Terminated
            || event == Event::SessionFailed || event == Event::StoreUnavailable,
        next_step(state, event).1 is Exit <==> next_step(state, event).0 == LoopState::Terminated,
        next_step(state, event).1 is Exit ==> next_step(state, event).1 == Action::Exit(1),
{
}

} // verus!
