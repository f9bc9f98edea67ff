//! The lifecycle of the one managed process: empty, running, empty again.

use vstd::prelude::*;
use vstd::string::StringExecFns;

verus! {

/// What a start request has to do.
#[derive(Debug, Clone, Copy, PartialEq, Eq, Structural)]
pub enum StartDecision {
    /// A process is already held: the request succeeds without a launch.
    AlreadyRunning,
    /// Nothing is held: the caller launches a process and records the outcome.
    Launch,
}

/// Text of the error that a failed launch is reported with.
pub open spec fn start_error_text(cause: Seq<char>) -> Seq<char> {
    "Failed to start Node.js server: "@ + cause
}

/// Whether a start request on `state` launches a process.
pub open spec fn start_launches<H>(state: Option<H>) -> bool {
    state is None
}

/// The state that a start request leaves, where `launch` is what an attempted
/// launch gives. It is consulted only if the request launches at all.
pub open spec fn state_after_start<H>(state: Option<H>, launch: Result<H, String>) -> Option<H> {
    if state is Some {
        state
    } else {
        match launch {
            Ok(handle) => Some(handle),
            Err(_) => None,
        }
    }
}

/// Whether a start request on `state` succeeds.
pub open spec fn start_succeeds<H>(state: Option<H>, launch: Result<H, String>) -> bool {
    state is Some || launch is Ok
}

/// The state that a stop request leaves: always empty.
pub open spec fn state_after_stop<H>(state: Option<H>) -> Option<H> {
    None
}

/// The handle that a stop request hands out for termination.
pub open spec fn stop_releases<H>(state: Option<H>) -> Option<H> {
    state
}

/// How many launches a series of start requests performs, each request acting on
/// the state that the one before it left.
pub open spec fn launch_count<H>(state: Option<H>, launches: Seq<Result<H, String>>) -> nat
    decreases launches.len(),
{
    if launches.len() == 0 {
        0
    } else {
        let here: nat = if start_launches(state) { 1 } else { 0 };
        here + launch_count(state_after_start(state, launches[0]), launches.drop_first())
    }
}

/// The state that a series of start requests leaves.
pub open spec fn state_after_starts<H>(state: Option<H>, launches: Seq<Result<H, String>>) -> Option<H>
    decreases launches.len(),
{
    if launches.len() == 0 {
        state
    } else {
        state_after_starts(state_after_start(state, launches[0]), launches.drop_first())
    }
}

/// A request to the supervisor. A start request carries what its launch would
/// give if it came to one.
pub enum Request<H> {
    Start(Result<H, String>),
    Stop,
}

/// The state that `request` leaves.
pub open spec fn state_after<H>(state: Option<H>, request: Request<H>) -> Option<H> {
    match request {
        Request::Start(launch) => state_after_start(state, launch),
        Request::Stop => state_after_stop(state),
    }
}

/// How many processes `request` brings to life: one for a start request that
/// launches and whose launch works, none otherwise.
pub open spec fn launched_by<H>(state: Option<H>, request: Request<H>) -> nat {
    match request {
        Request::Start(launch) => if start_launches(state) && launch is Ok {
            1
        } else {
            0
        },
        Request::Stop => 0,
    }
}

/// How many processes `request` hands out for termination.
pub open spec fn released_by<H>(state: Option<H>, request: Request<H>) -> nat {
    match request {
        Request::Start(_) => 0,
        Request::Stop => if stop_releases(state) is Some {
            1
        } else {
            0
        },
    }
}

/// How many processes `state` holds: one or none.
pub open spec fn held<H>(state: Option<H>) -> nat {
    if state is Some {
        1
    } else {
        0
    }
}

/// The state that a series of requests leaves, each acting on the state that
/// the one before it left.
pub open spec fn state_after_all<H>(state: Option<H>, requests: Seq<Request<H>>) -> Option<H>
    decreases requests.len(),
{
    if requests.len() == 0 {
        state
    } else {
        state_after_all(state_after(state, requests[0]), requests.drop_first())
    }
}

/// How many processes a series of requests brings to life.
pub open spec fn launched_in<H>(state: Option<H>, requests: Seq<Request<H>>) -> nat
    decreases requests.len(),
{
    if requests.len() == 0 {
        0
    } else {
        launched_by(state, requests[0]) + launched_in(
            state_after(state, requests[0]),
            requests.drop_first(),
        )
    }
}

/// How many processes a series of requests hands out for termination.
pub open spec fn released_in<H>(state: Option<H>, requests: Seq<Request<H>>) -> nat
    decreases requests.len(),
{
    if requests.len() == 0 {
        0
    } else {
        released_by(state, requests[0]) + released_in(
            state_after(state, requests[0]),
            requests.drop_first(),
        )
    }
}

/// Owner of at most one process handle of type `H`.
pub struct Supervisor<H> {
    process: Option<H>,
}

impl<H> View for Supervisor<H> {
    type V = Option<H>;

    closed spec fn view(&self) -> Option<H> {
        self.process
    }
}

impl<H> Supervisor<H> {
    /// A supervisor that holds no process.
    pub fn new() -> (supervisor: Self)
        ensures
            supervisor@ is None,
    {
        Supervisor { process: None }
    }

    /// Whether a process handle is held.
    pub fn is_running(&self) -> (running: bool)
        ensures
            running == (self@ is Some),
    {
        self.process.is_some()
    }

    /// Decides a start request: a launch is due exactly when nothing is held.
    pub fn start_decision(&self) -> (decision: StartDecision)
        ensures
            decision == (if start_launches(self@) {
                StartDecision::Launch
            } else {
                StartDecision::AlreadyRunning
            }),
    {
        if self.process.is_some() {
            StartDecision::AlreadyRunning
        } else {
            StartDecision::Launch
        }
    }

    /// Records what the launch that `start_decision` asked for has given. A
    /// handle is stored; a failure leaves the supervisor empty and is reported
    /// with the cause behind a fixed prefix.
    pub fn record_launch(&mut self, launch: Result<H, String>) -> (result: Result<(), String>)
        requires
            old(self)@ is None,
        ensures
            final(self)@ == state_after_start(old(self)@, launch),
            result is Ok <==> start_succeeds(old(self)@, launch),
            launch matches Err(cause) ==> result matches Err(message) && message@
                == start_error_text(cause@),
    {
        match launch {
            Ok(handle) => {
                self.process = Some(handle);
                Ok(())
            },
            Err(cause) => {
                Err(String::from_str("Failed to start Node.js server: ").concat(cause.as_str()))
            },
        }
    }

    /// Empties the supervisor and hands out the handle it held, for the caller to
    /// terminate. On an empty supervisor nothing happens.
    pub fn stop(&mut self) -> (released: Option<H>)
        ensures
            final(self)@ == state_after_stop(old(self)@),
            released == stop_releases(old(self)@),
    {
        self.process.take()
    }
}

/// A start request on a supervisor that a start has filled launches nothing,
/// succeeds, and leaves the handle in place.
pub proof fn law_start_idempotent<H>(state: Option<H>, first: Result<H, String>, second: Result<H, String>)
    requires
        start_succeeds(state, first),
    ensures
        !start_launches(state_after_start(state, first)),
        start_succeeds(state_after_start(state, first), second),
        state_after_start(state_after_start(state, first), second) == state_after_start(
            state,
            first,
        ),
        launch_count(state, seq![first, second]) <= 1,
{
    reveal_with_fuel(launch_count, 3);
}

/// A stop request on an empty supervisor releases nothing and leaves it empty;
/// a second stop after any stop does the same.
pub proof fn law_stop_idempotent<H>(state: Option<H>)
    ensures
        stop_releases(None::<H>) is None,
        state_after_stop(None::<H>) is None,
        stop_releases(state_after_stop(state)) is None,
        state_after_stop(state_after_stop(state)) == state_after_stop(state),
{
}

/// However many start requests arrive one after another, once one has filled
/// the supervisor no later one launches: if every attempted launch works, the
/// series launches once on an empty supervisor and never on a filled one, and
/// leaves a handle held.
pub proof fn law_single_launch<H>(state: Option<H>, launches: Seq<Result<H, String>>)
    requires
        forall|i: int| 0 <= i < launches.len() ==> (#[trigger] launches[i]) is Ok,
    ensures
        launch_count(state, launches) == (if state is None && launches.len() > 0 {
            1nat
        } else {
            0nat
        }),
        launches.len() > 0 ==> state_after_starts(state, launches) is Some,
        state is Some ==> state_after_starts(state, launches) == state,
    decreases launches.len(),
{
    if launches.len() > 0 {
        let rest = launches.drop_first();
        assert(launches[0] is Ok);
        assert forall|i: int| 0 <= i < rest.len() implies (#[trigger] rest[i]) is Ok by {
            assert(rest[i] == launches[i + 1]);
        }
        law_single_launch(state_after_start(state, launches[0]), rest);
    }
}

/// Over any series of start and stop requests no process is lost: what was held
/// at first and what was brought to life since has either been handed out for
/// termination or is the one process still held.
pub proof fn law_processes_accounted<H>(state: Option<H>, requests: Seq<Request<H>>)
    ensures
        held(state) + launched_in(state, requests) == released_in(state, requests) + held(
            state_after_all(state, requests),
        ),
        held(state_after_all(state, requests)) <= 1,
    decreases requests.len(),
{
    if requests.len() > 0 {
        law_processes_accounted(state_after(state, requests[0]), requests.drop_first());
    }
}

} // verus!
