//! The decisions of stopping and restarting the backend.
//!
//! Stopping asks the process to die, then polls for its exit until
//! [`BACKEND_STOP_TIMEOUT_MS`] have passed, after which it waits for it
//! outright, so that the child is always reaped.
//!
//! Restarting stops the running backend, pauses, spawns a new one and waits
//! for it to become ready; the window is pointed at the new backend only once
//! it answers, since it may have picked another port.
use vstd::prelude::*;

use crate::backend::BackendError;
use crate::health::BACKEND_STOP_TIMEOUT_MS;

verus! {

/// Pause between two polls for the backend's exit.
pub const EXIT_POLL_INTERVAL_MS: u64 = 25;

/// Pause between stopping the old backend and spawning the new one.
pub const RESTART_PAUSE_MS: u64 = 1_000;

/// What one poll for the backend's exit found.
#[derive(PartialEq, Eq, Structural, Debug, Clone, Copy)]
pub enum ExitPoll {
    /// The process has exited.
    Exited,
    /// The process is still running.
    Running,
    /// The poll failed.
    Failed,
}

/// What stopping does after a poll.
#[derive(PartialEq, Eq, Structural, Debug, Clone, Copy)]
pub enum ReapAction {
    /// The process is gone and reaped.
    Done,
    /// Sleep this many milliseconds, then poll again.
    PollAgainAfter(u64),
    /// Wait for the process without a time limit, then stop.
    WaitToEnd,
}

/// Decides what follows a poll for the backend's exit, made `elapsed_ms`
/// after it was asked to die.
pub fn reap_decision(poll: ExitPoll, elapsed_ms: u64) -> (action: ReapAction)
    ensures
        action == match poll {
            ExitPoll::Exited => ReapAction::Done,
            ExitPoll::Running => if elapsed_ms < BACKEND_STOP_TIMEOUT_MS {
                ReapAction::PollAgainAfter(EXIT_POLL_INTERVAL_MS)
            } else {
                ReapAction::WaitToEnd
            },
            ExitPoll::Failed => ReapAction::WaitToEnd,
        },
{
    match poll {
        ExitPoll::Exited => ReapAction::Done,
        ExitPoll::Running => if elapsed_ms < BACKEND_STOP_TIMEOUT_MS {
            ReapAction::PollAgainAfter(EXIT_POLL_INTERVAL_MS)
        } else {
            ReapAction::WaitToEnd
        },
        ExitPoll::Failed => ReapAction::WaitToEnd,
    }
}

/// Where a restart stands.
#[derive(PartialEq, Eq, Structural, Debug, Clone, Copy)]
pub enum RestartStep {
    /// The old backend is being stopped.
    Stopping,
    /// Pausing before the new backend is spawned.
    Pausing,
    /// The new backend is being spawned.
    Spawning,
    /// The new backend on this port is registered; waiting for it to answer.
    AwaitingReady(u16),
    /// The restart is over.
    Finished,
}

/// What the shell reports back to a restart.
pub enum RestartEvent {
    /// The action asked for (stopping, pausing) is done.
    Completed,
    /// The spawn is done: the new backend's port, or why it failed.
    Spawned(Result<u16, BackendError>),
    /// The wait for the new backend is over: whether it became ready.
    ReadyChecked(bool),
}

/// What a restart asks the shell to do next.
pub enum RestartAction {
    /// Stop the running backend.
    StopBackend,
    /// Sleep this many milliseconds.
    Pause(u64),
    /// Spawn a new backend.
    SpawnBackend,
    /// Register the new backend on this port and wait for it to become ready.
    AwaitReady(u16),
    /// Point the window at the backend on this port and announce the restart.
    Announce(u16),
    /// Report that the spawn failed, with this error.
    ReportSpawnFailure(BackendError),
    /// Report that the new backend did not become ready in time.
    ReportTimeout,
    /// Nothing: the event does not fit the restart's step.
    Idle,
}

/// One step of a restart: from where it stands and what the shell reported,
/// to where it stands next and what the shell should do.
pub open spec fn restart_transition(step: RestartStep, event: RestartEvent) -> (
    RestartStep,
    RestartAction,
) {
    match (step, event) {
        (RestartStep::Stopping, RestartEvent::Completed) => (
            RestartStep::Pausing,
            RestartAction::Pause(RESTART_PAUSE_MS),
        ),
        (RestartStep::Pausing, RestartEvent::Completed) => (
            RestartStep::Spawning,
            RestartAction::SpawnBackend,
        ),
        (RestartStep::Spawning, RestartEvent::Spawned(Ok(port))) => (
            RestartStep::AwaitingReady(port),
            RestartAction::AwaitReady(port),
        ),
        (RestartStep::Spawning, RestartEvent::Spawned(Err(e))) => (
            RestartStep::Finished,
            RestartAction::ReportSpawnFailure(e),
        ),
        (RestartStep::AwaitingReady(port), RestartEvent::ReadyChecked(ready)) => (
            RestartStep::Finished,
            if ready {
                RestartAction::Announce(port)
            } else {
                RestartAction::ReportTimeout
            },
        ),
        (s, _) => (s, RestartAction::Idle),
    }
}

/// A restart of the backend in progress.
pub struct Restart {
    step: RestartStep,
}

impl Restart {
    /// Where the restart stands.
    pub closed spec fn step(&self) -> RestartStep {
        self.step
    }

    /// Begins a restart: the old backend is stopped first.
    pub fn begin() -> (r: (Restart, RestartAction))
        ensures
            r.0.step() == RestartStep::Stopping,
            r.1 == RestartAction::StopBackend,
    {
        (Restart { step: RestartStep::Stopping }, RestartAction::StopBackend)
    }

    /// Whether the restart is over.
    pub fn is_finished(&self) -> (done: bool)
        ensures
            done == (self.step() == RestartStep::Finished),
    {
        self.step == RestartStep::Finished
    }

    /// Takes in what the shell reports and says what to do next.
    pub fn advance(&mut self, event: RestartEvent) -> (action: RestartAction)
        ensures
            (final(self).step(), action) == restart_transition(old(self).step(), event),
    {
        match (self.step, event) {
            (RestartStep::Stopping, RestartEvent::Completed) => {
                self.step = RestartStep::Pausing;
                RestartAction::Pause(RESTART_PAUSE_MS)
            },
            (RestartStep::Pausing, RestartEvent::Completed) => {
                self.step = RestartStep::Spawning;
                RestartAction::SpawnBackend
            },
            (RestartStep::Spawning, RestartEvent::Spawned(Ok(port))) => {
                self.step = RestartStep::AwaitingReady(port);
                RestartAction::AwaitReady(port)
            },
            (RestartStep::Spawning, RestartEvent::Spawned(Err(e))) => {
                self.step = RestartStep::Finished;
                RestartAction::ReportSpawnFailure(e)
            },
            (RestartStep::AwaitingReady(port), RestartEvent::ReadyChecked(ready)) => {
                self.step = RestartStep::Finished;
                if ready {
                    RestartAction::Announce(port)
                } else {
                    RestartAction::ReportTimeout
                }
            },
            (_, _) => RestartAction::Idle,
        }
    }
}

} // verus!
