//! The bounded retry of the transfer of one remote file, as a state machine.
//!
//! The caller performs each action and hands back what came of it. Every
//! attempt asks for a fresh authorization; a refused authorization and a
//! broken transfer both end the attempt, and the next one starts at once,
//! without delay. Only the failure of the last attempt ends the transfer
//! with an error.
use crate::api::error::Error;
use crate::api::text::{decimal, decimal_string};
use crate::api::types::PresignedUrl;
use vstd::prelude::*;
use vstd::string::*;

verus! {

/// How often the transfer of one file is attempted.
pub const MAX_ATTEMPTS: u32 = 3;

/// Where the transfer of one file stands.
#[derive(Debug, Clone, Copy, PartialEq, Eq)]
pub enum DownloadState {
    /// An authorization for the attempt has been asked for.
    Authorizing { attempt: u32 },
    /// The file is being fetched under the authorization of the attempt.
    Fetching { attempt: u32 },
    /// The file has been fetched.
    Succeeded,
    /// Every attempt has failed.
    Exhausted,
}

/// What came of the action that the caller performed.
#[derive(Debug, PartialEq, Eq)]
pub enum DownloadEvent {
    /// The server granted an authorization.
    Authorized(PresignedUrl),
    /// No authorization was granted: the server refused, could not be
    /// reached, or answered what could not be read.
    AuthorizationFailed,
    /// The file has been written in full.
    Fetched,
    /// The fetch broke off, on the remote stream or on the local file.
    TransferFailed,
}

/// What the caller is to do next.
#[derive(Debug, PartialEq, Eq)]
pub enum DownloadAction {
    /// Ask the server for a fresh authorization.
    Authorize { attempt: u32 },
    /// Fetch the file under the authorization just granted, truncating the
    /// local file.
    Fetch { attempt: u32, authorization: PresignedUrl },
    /// Stop, with this result for the file.
    Finish(Result<(), Error>),
}

/// The outcome of one step.
#[derive(Debug, PartialEq, Eq)]
pub struct Transition {
    pub state: DownloadState,
    pub action: DownloadAction,
    /// The number of the attempt that the event ended in failure, if it
    /// ended one.
    pub failed_attempt: Option<u32>,
}

/// The state and the action after the failure of attempt `attempt`.
pub open spec fn state_after_failure(attempt: u32) -> DownloadState {
    if attempt < MAX_ATTEMPTS {
        DownloadState::Authorizing { attempt: (attempt + 1) as u32 }
    } else {
        DownloadState::Exhausted
    }
}

pub open spec fn action_after_failure(attempt: u32) -> DownloadAction {
    if attempt < MAX_ATTEMPTS {
        DownloadAction::Authorize { attempt: (attempt + 1) as u32 }
    } else {
        DownloadAction::Finish(Err(Error::ExhaustedFailure { max_attempts: MAX_ATTEMPTS }))
    }
}

impl DownloadState {
    /// The attempt of a state that is not final lies within the budget.
    pub open spec fn wf(self) -> bool {
        match self {
            DownloadState::Authorizing { attempt } => 1 <= attempt <= MAX_ATTEMPTS,
            DownloadState::Fetching { attempt } => 1 <= attempt <= MAX_ATTEMPTS,
            _ => true,
        }
    }

    pub open spec fn is_final(self) -> bool {
        self is Succeeded || self is Exhausted
    }

    /// The state after `event`.
    pub open spec fn spec_next(self, event: DownloadEvent) -> DownloadState {
        match self {
            DownloadState::Authorizing { attempt } => if event is Authorized {
                DownloadState::Fetching { attempt }
            } else {
                state_after_failure(attempt)
            },
            DownloadState::Fetching { attempt } => if event is Fetched {
                DownloadState::Succeeded
            } else {
                state_after_failure(attempt)
            },
            DownloadState::Succeeded => DownloadState::Succeeded,
            DownloadState::Exhausted => DownloadState::Exhausted,
        }
    }

    /// The action that `event` calls for. An authorization is handed to the
    /// fetch of the attempt in which it was granted and to no other.
    pub open spec fn spec_action(self, event: DownloadEvent) -> DownloadAction {
        match self {
            DownloadState::Authorizing { attempt } => match event {
                DownloadEvent::Authorized(authorization) => DownloadAction::Fetch {
                    attempt,
                    authorization,
                },
                _ => action_after_failure(attempt),
            },
            DownloadState::Fetching { attempt } => if event is Fetched {
                DownloadAction::Finish(Ok(()))
            } else {
                action_after_failure(attempt)
            },
            DownloadState::Succeeded => DownloadAction::Finish(Ok(())),
            DownloadState::Exhausted => DownloadAction::Finish(
                Err(Error::ExhaustedFailure { max_attempts: MAX_ATTEMPTS }),
            ),
        }
    }

    /// The attempt that `event` ends in failure, if it ends one.
    pub open spec fn spec_failed_attempt(self, event: DownloadEvent) -> Option<u32> {
        match self {
            DownloadState::Authorizing { attempt } => if event is Authorized {
                None
            } else {
                Some(attempt)
            },
            DownloadState::Fetching { attempt } => if event is Fetched {
                None
            } else {
                Some(attempt)
            },
            _ => None,
        }
    }

    /// The first attempt, and the request for its authorization.
    pub fn start() -> (begun: (DownloadState, DownloadAction))
        ensures
            begun.0 == (DownloadState::Authorizing { attempt: 1 }),
            begun.1 == (DownloadAction::Authorize { attempt: 1 }),
            begun.0.wf(),
    {
        (DownloadState::Authorizing { attempt: 1 }, DownloadAction::Authorize { attempt: 1 })
    }

    fn after_failure(attempt: u32) -> (next: (DownloadState, DownloadAction))
        ensures
            next.0 == state_after_failure(attempt),
            next.1 == action_after_failure(attempt),
    {
        if attempt < MAX_ATTEMPTS {
            (
                DownloadState::Authorizing { attempt: attempt + 1 },
                DownloadAction::Authorize { attempt: attempt + 1 },
            )
        } else {
            (
                DownloadState::Exhausted,
                DownloadAction::Finish(Err(Error::ExhaustedFailure { max_attempts: MAX_ATTEMPTS })),
            )
        }
    }

    /// Takes what came of the last action and decides what follows.
    pub fn step(self, event: DownloadEvent) -> (transition: Transition)
        ensures
            transition.state == self.spec_next(event),
            transition.action == self.spec_action(event),
            transition.failed_attempt == self.spec_failed_attempt(event),
            self.wf() ==> transition.state.wf(),
    {
        match self {
            DownloadState::Authorizing { attempt } => match event {
                DownloadEvent::Authorized(authorization) => Transition {
                    state: DownloadState::Fetching { attempt },
                    action: DownloadAction::Fetch { attempt, authorization },
                    failed_attempt: None,
                },
                _ => {
                    let (state, action) = DownloadState::after_failure(attempt);
                    Transition { state, action, failed_attempt: Some(attempt) }
                },
            },
            DownloadState::Fetching { attempt } => match event {
                DownloadEvent::Fetched => Transition {
                    state: DownloadState::Succeeded,
                    action: DownloadAction::Finish(Ok(())),
                    failed_attempt: None,
                },
                _ => {
                    let (state, action) = DownloadState::after_failure(attempt);
                    Transition { state, action, failed_attempt: Some(attempt) }
                },
            },
            DownloadState::Succeeded => Transition {
                state: DownloadState::Succeeded,
                action: DownloadAction::Finish(Ok(())),
                failed_attempt: None,
            },
            DownloadState::Exhausted => Transition {
                state: DownloadState::Exhausted,
                action: DownloadAction::Finish(
                    Err(Error::ExhaustedFailure { max_attempts: MAX_ATTEMPTS }),
                ),
                failed_attempt: None,
            },
        }
    }
}

/// The line that reports the failure of one attempt.
pub open spec fn attempt_report(attempt: u32, cause: &Error) -> Seq<char> {
    "Attempt "@ + decimal(attempt as nat) + ": "@ + cause.spec_message()
}

pub fn attempt_message(attempt: u32, cause: &Error) -> (line: String)
    ensures
        line@ == attempt_report(attempt, cause),
{
    let mut line = String::from_str("Attempt ");
    line.append(decimal_string(attempt as u64).as_str());
    line.append(": ");
    line.append(cause.message().as_str());
    line
}

/// The state that a run of events leads to from `state`.
pub open spec fn run_from(state: DownloadState, events: Seq<DownloadEvent>) -> DownloadState
    decreases events.len(),
{
    if events.len() == 0 {
        state
    } else {
        run_from(state.spec_next(events[0]), events.drop_first())
    }
}

/// How many authorizations the events of a run from `state` make the caller
/// ask for.
pub open spec fn authorizations_from(state: DownloadState, events: Seq<DownloadEvent>) -> nat
    decreases events.len(),
{
    if events.len() == 0 {
        0
    } else {
        let asked: nat = if state.spec_action(events[0]) is Authorize {
            1
        } else {
            0
        };
        asked + authorizations_from(state.spec_next(events[0]), events.drop_first())
    }
}

/// How many fetches the events of a run from `state` make the caller start.
pub open spec fn fetches_from(state: DownloadState, events: Seq<DownloadEvent>) -> nat
    decreases events.len(),
{
    if events.len() == 0 {
        0
    } else {
        let started: nat = if state.spec_action(events[0]) is Fetch {
            1
        } else {
            0
        };
        started + fetches_from(state.spec_next(events[0]), events.drop_first())
    }
}

/// The first state of a transfer.
pub open spec fn initial() -> DownloadState {
    DownloadState::Authorizing { attempt: 1 }
}

/// The authorizations still to be asked for from `state`, at most.
pub open spec fn authorizations_left(state: DownloadState) -> nat {
    match state {
        DownloadState::Authorizing { attempt } => (MAX_ATTEMPTS - attempt) as nat,
        DownloadState::Fetching { attempt } => (MAX_ATTEMPTS - attempt) as nat,
        _ => 0,
    }
}

/// The fetches still to be started from `state`, at most.
pub open spec fn fetches_left(state: DownloadState) -> nat {
    match state {
        DownloadState::Authorizing { attempt } => (MAX_ATTEMPTS - attempt + 1) as nat,
        DownloadState::Fetching { attempt } => (MAX_ATTEMPTS - attempt) as nat,
        _ => 0,
    }
}

/// The events still to be taken from `state` before it is final, at most.
pub open spec fn steps_left(state: DownloadState) -> nat {
    match state {
        DownloadState::Authorizing { attempt } => (2 * (MAX_ATTEMPTS - attempt) + 2) as nat,
        DownloadState::Fetching { attempt } => (2 * (MAX_ATTEMPTS - attempt) + 1) as nat,
        _ => 0,
    }
}

/// A step keeps the attempt within the budget, and takes a state that is
/// not final nearer to a final one.
pub proof fn lemma_step_progress(state: DownloadState, event: DownloadEvent)
    requires
        state.wf(),
    ensures
        state.spec_next(event).wf(),
        !state.is_final() ==> steps_left(state.spec_next(event)) < steps_left(state),
        state.is_final() ==> state.spec_next(event) == state,
        state.spec_next(event) is Succeeded && !(state is Succeeded) ==> state is Fetching
            && event is Fetched,
        state.spec_action(event) is Fetch ==> state is Authorizing && event is Authorized,
{
}

/// A final state is left by no run of events, and calls for no further
/// authorization or fetch.
pub proof fn lemma_final_is_final(state: DownloadState, events: Seq<DownloadEvent>)
    requires
        state.is_final(),
    ensures
        run_from(state, events) == state,
        authorizations_from(state, events) == 0,
        fetches_from(state, events) == 0,
    decreases events.len(),
{
    if events.len() > 0 {
        lemma_final_is_final(state, events.drop_first());
    }
}

/// Whatever the events, a transfer asks for no more authorizations and
/// starts no more fetches than the budget of its state allows.
pub proof fn lemma_budget(state: DownloadState, events: Seq<DownloadEvent>)
    requires
        state.wf(),
    ensures
        authorizations_from(state, events) <= authorizations_left(state),
        fetches_from(state, events) <= fetches_left(state),
        run_from(state, events).wf(),
    decreases events.len(),
{
    if events.len() > 0 {
        lemma_step_progress(state, events[0]);
        lemma_budget(state.spec_next(events[0]), events.drop_first());
    }
}

/// A transfer that ends exhausted has used every attempt: from a state in
/// attempt `n`, it has asked for each of the authorizations that were left.
pub proof fn lemma_exhausted_used_all(state: DownloadState, events: Seq<DownloadEvent>)
    requires
        state.wf(),
        !state.is_final(),
        run_from(state, events) is Exhausted,
    ensures
        authorizations_from(state, events) == authorizations_left(state),
    decreases events.len(),
{
    if events.len() > 0 {
        let next = state.spec_next(events[0]);
        lemma_step_progress(state, events[0]);
        if next.is_final() {
            lemma_final_is_final(next, events.drop_first());
        } else {
            lemma_exhausted_used_all(next, events.drop_first());
        }
    }
}

/// Enough events end every transfer: a run of at least as many events as a
/// state has steps left leads to a final state.
pub proof fn lemma_terminates(state: DownloadState, events: Seq<DownloadEvent>)
    requires
        state.wf(),
        events.len() >= steps_left(state),
    ensures
        run_from(state, events).is_final(),
    decreases events.len(),
{
    if state.is_final() {
        lemma_final_is_final(state, events);
    } else {
        lemma_step_progress(state, events[0]);
        lemma_terminates(state.spec_next(events[0]), events.drop_first());
    }
}

/// Where no fetch completes, the attempts run out: a run without `Fetched`
/// that is long enough to end the transfer ends it exhausted.
pub proof fn lemma_failures_exhaust(state: DownloadState, events: Seq<DownloadEvent>)
    requires
        state.wf(),
        !(state is Succeeded),
        events.len() >= steps_left(state),
        forall|i: int| 0 <= i < events.len() ==> !(#[trigger] events[i] is Fetched),
    ensures
        run_from(state, events) is Exhausted,
    decreases events.len(),
{
    if state.is_final() {
        lemma_final_is_final(state, events);
    } else {
        let rest = events.drop_first();
        assert(!(events[0] is Fetched));
        lemma_step_progress(state, events[0]);
        assert forall|i: int| 0 <= i < rest.len() implies !(#[trigger] rest[i] is Fetched) by {
            assert(rest[i] == events[i + 1]);
        }
        lemma_failures_exhaust(state.spec_next(events[0]), rest);
    }
}

/// A whole transfer asks for at most `MAX_ATTEMPTS` authorizations, the
/// first included, and starts at most as many fetches; it is over after
/// twice as many events; and where it ends exhausted it has asked for
/// exactly `MAX_ATTEMPTS` authorizations.
pub proof fn lemma_transfer_is_bounded(events: Seq<DownloadEvent>)
    ensures
        1 + authorizations_from(initial(), events) <= MAX_ATTEMPTS,
        fetches_from(initial(), events) <= MAX_ATTEMPTS,
        events.len() >= 2 * MAX_ATTEMPTS ==> run_from(initial(), events).is_final(),
        run_from(initial(), events) is Exhausted ==> 1 + authorizations_from(initial(), events)
            == MAX_ATTEMPTS,
{
    lemma_budget(initial(), events);
    if events.len() >= 2 * MAX_ATTEMPTS {
        lemma_terminates(initial(), events);
    }
    if run_from(initial(), events) is Exhausted {
        lemma_exhausted_used_all(initial(), events);
    }
}

/// Refused authorizations followed by a granted one and a completed fetch:
/// `refused` events that grant nothing, then `Authorized`, then `Fetched`.
pub open spec fn succeeds_after(events: Seq<DownloadEvent>, refused: int) -> bool {
    &&& 0 <= refused
    &&& events.len() == refused + 2
    &&& forall|i: int| 0 <= i < refused ==> !(#[trigger] events[i] is Authorized)
    &&& events[refused] is Authorized
    &&& events[refused + 1] is Fetched
}

/// Where the authorizations of the first attempts are refused and that of a
/// later attempt within the budget is granted and its fetch completes, the
/// transfer succeeds, with one authorization asked for in each attempt and
/// exactly one fetch.
pub proof fn lemma_success_after_refusals(
    state: DownloadState,
    events: Seq<DownloadEvent>,
    refused: int,
)
    requires
        state matches DownloadState::Authorizing { attempt } && 1 <= attempt && attempt + refused
            <= MAX_ATTEMPTS,
        succeeds_after(events, refused),
    ensures
        run_from(state, events) is Succeeded,
        authorizations_from(state, events) == refused,
        fetches_from(state, events) == 1,
    decreases refused,
{
    let rest = events.drop_first();
    let next = state.spec_next(events[0]);
    if refused == 0 {
        assert(rest.len() == 1);
        assert(rest[0] == events[1]);
        let last = next.spec_next(rest[0]);
        assert(last is Succeeded);
        lemma_final_is_final(last, rest.drop_first());
        assert(run_from(next, rest) == run_from(last, rest.drop_first()));
        assert(authorizations_from(next, rest) == 0);
        assert(fetches_from(next, rest) == 0);
    } else {
        assert(!(events[0] is Authorized));
        assert forall|i: int| 0 <= i < refused - 1 implies !(#[trigger] rest[i] is Authorized) by {
            assert(rest[i] == events[i + 1]);
        }
        assert(rest[refused - 1] == events[refused]);
        assert(rest[refused] == events[refused + 1]);
        lemma_success_after_refusals(next, rest, refused - 1);
    }
}

} // verus!
