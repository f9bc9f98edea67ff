//! The order of a restart, and the wait after the start at application setup.

use vstd::prelude::*;
use vstd::string::StringExecFns;
use crate::supervisor::{
    start_error_text, start_launches, start_succeeds, state_after_start, state_after_stop,
    stop_releases,
};

verus! {

/// Seconds between stopping the old process and starting the new one, so that
/// the port is free again.
pub const RELEASE_GRACE_SECS: u64 = 2;

/// Seconds given to a started process before it is taken to listen.
pub const STARTUP_GRACE_SECS: u64 = 3;

/// How far a restart has come, named by what it waits for.
#[derive(Debug, Clone, Copy, PartialEq, Eq, Structural)]
pub enum RestartPhase {
    AwaitingStop,
    AwaitingRelease,
    AwaitingStart,
    AwaitingSettle,
    Finished,
}

/// What the caller reports back after performing an action.
#[derive(Debug, PartialEq, Eq)]
pub enum RestartEvent {
    /// The supervisor was stopped.
    Stopped,
    /// A wait has elapsed.
    Waited,
    /// A start request ended with this result.
    Started(Result<(), String>),
}

/// What the caller has to do next.
#[derive(Debug, PartialEq, Eq)]
pub enum RestartAction {
    /// Stop the supervisor and terminate what it held.
    StopServer,
    /// Let this many seconds pass.
    Wait { seconds: u64 },
    /// Run a start request.
    StartServer,
    /// The restart is over, with this result.
    Return(Result<(), String>),
}

/// A phase together with the action that leads out of it.
#[derive(Debug, PartialEq, Eq)]
pub struct RestartStep {
    pub phase: RestartPhase,
    pub action: RestartAction,
}

/// The step that follows `event` in `phase`, or `None` where the event is not
/// the one that the phase waits for.
pub open spec fn step_after(phase: RestartPhase, event: RestartEvent) -> Option<RestartStep> {
    match (phase, event) {
        (RestartPhase::AwaitingStop, RestartEvent::Stopped) => Some(
            RestartStep {
                phase: RestartPhase::AwaitingRelease,
                action: RestartAction::Wait { seconds: RELEASE_GRACE_SECS },
            },
        ),
        (RestartPhase::AwaitingRelease, RestartEvent::Waited) => Some(
            RestartStep { phase: RestartPhase::AwaitingStart, action: RestartAction::StartServer },
        ),
        (RestartPhase::AwaitingStart, RestartEvent::Started(Ok(()))) => Some(
            RestartStep {
                phase: RestartPhase::AwaitingSettle,
                action: RestartAction::Wait { seconds: STARTUP_GRACE_SECS },
            },
        ),
        (RestartPhase::AwaitingStart, RestartEvent::Started(Err(cause))) => Some(
            RestartStep { phase: RestartPhase::Finished, action: RestartAction::Return(Err(cause)) },
        ),
        (RestartPhase::AwaitingSettle, RestartEvent::Waited) => Some(
            RestartStep { phase: RestartPhase::Finished, action: RestartAction::Return(Ok(())) },
        ),
        _ => None,
    }
}

/// The first step of a restart.
pub open spec fn first_step() -> RestartStep {
    RestartStep { phase: RestartPhase::AwaitingStop, action: RestartAction::StopServer }
}

/// The actions of a whole restart in order, where `start` is the result of its
/// start request.
pub open spec fn restart_actions(start: Result<(), String>) -> Seq<RestartAction> {
    let stopped = step_after(first_step().phase, RestartEvent::Stopped)->0;
    let released = step_after(stopped.phase, RestartEvent::Waited)->0;
    let started = step_after(released.phase, RestartEvent::Started(start))->0;
    let head = seq![first_step().action, stopped.action, released.action, started.action];
    match step_after(started.phase, RestartEvent::Waited) {
        Some(settled) => head.push(settled.action),
        None => head,
    }
}

/// Begins a restart: the supervisor is stopped first.
pub fn restart_begin() -> (step: RestartStep)
    ensures
        step == first_step(),
{
    RestartStep { phase: RestartPhase::AwaitingStop, action: RestartAction::StopServer }
}

/// Advances a restart by one reported event.
pub fn restart_step(phase: RestartPhase, event: RestartEvent) -> (step: Option<RestartStep>)
    ensures
        step == step_after(phase, event),
{
    match (phase, event) {
        (RestartPhase::AwaitingStop, RestartEvent::Stopped) => Some(
            RestartStep {
                phase: RestartPhase::AwaitingRelease,
                action: RestartAction::Wait { seconds: RELEASE_GRACE_SECS },
            },
        ),
        (RestartPhase::AwaitingRelease, RestartEvent::Waited) => Some(
            RestartStep { phase: RestartPhase::AwaitingStart, action: RestartAction::StartServer },
        ),
        (RestartPhase::AwaitingStart, RestartEvent::Started(Ok(()))) => Some(
            RestartStep {
                phase: RestartPhase::AwaitingSettle,
                action: RestartAction::Wait { seconds: STARTUP_GRACE_SECS },
            },
        ),
        (RestartPhase::AwaitingStart, RestartEvent::Started(Err(cause))) => Some(
            RestartStep { phase: RestartPhase::Finished, action: RestartAction::Return(Err(cause)) },
        ),
        (RestartPhase::AwaitingSettle, RestartEvent::Waited) => Some(
            RestartStep { phase: RestartPhase::Finished, action: RestartAction::Return(Ok(())) },
        ),
        _ => None,
    }
}

/// What application setup does with the result of its start request: a success
/// is followed by a wait of this many seconds, a failure ends setup with the
/// cause behind the start error's prefix.
pub fn setup_outcome(start: Result<(), String>) -> (outcome: Result<u64, String>)
    ensures
        start is Ok ==> outcome == Ok::<u64, String>(STARTUP_GRACE_SECS),
        start matches Err(cause) ==> outcome matches Err(message) && message@ == start_error_text(
            cause@,
        ),
{
    match start {
        Ok(()) => Ok(STARTUP_GRACE_SECS),
        Err(cause) => Err(
            String::from_str("Failed to start Node.js server: ").concat(cause.as_str()),
        ),
    }
}

/// A restart whose start request succeeds stops, waits two seconds, starts,
/// waits three seconds and returns success, in that order. One whose start
/// request fails returns that failure right after the start, with no further
/// wait.
pub proof fn law_restart_sequence(start: Result<(), String>)
    ensures
        start is Ok ==> restart_actions(start) == seq![
            RestartAction::StopServer,
            RestartAction::Wait { seconds: 2 },
            RestartAction::StartServer,
            RestartAction::Wait { seconds: 3 },
            RestartAction::Return(Ok(())),
        ],
        start matches Err(cause) ==> restart_actions(start) == seq![
            RestartAction::StopServer,
            RestartAction::Wait { seconds: 2 },
            RestartAction::StartServer,
            RestartAction::Return(Err(cause)),
        ],
{
    match start {
        Ok(()) => {
            assert(restart_actions(start) =~= seq![
                RestartAction::StopServer,
                RestartAction::Wait { seconds: 2 },
                RestartAction::StartServer,
                RestartAction::Wait { seconds: 3 },
                RestartAction::Return(Ok(())),
            ]);
        },
        Err(cause) => {
            assert(restart_actions(start) =~= seq![
                RestartAction::StopServer,
                RestartAction::Wait { seconds: 2 },
                RestartAction::StartServer,
                RestartAction::Return(Err(cause)),
            ]);
        },
    }
}

/// Whatever the supervisor held before a restart is handed out for termination,
/// and the start request of the restart always launches. If that launch works
/// the new handle is held; if it fails the start request fails and the
/// supervisor is left empty.
pub proof fn law_restart_replaces_process<H>(state: Option<H>, launch: Result<H, String>)
    ensures
        stop_releases(state) == state,
        start_launches(state_after_stop(state)),
        launch matches Ok(handle) ==> start_succeeds(state_after_stop(state), launch)
            && state_after_start(state_after_stop(state), launch) == Some(handle),
        launch is Err ==> !start_succeeds(state_after_stop(state), launch) && state_after_start(
            state_after_stop(state),
            launch,
        ) is None,
{
}

} // verus!
