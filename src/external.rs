//! Decisions on actions that run as an external process: what a start and
//! each poll of that process mean for the record.
use vstd::prelude::*;

use crate::actions::{ActionState, StatePayload};
use crate::error::ErrorKind;
use crate::store::{
    moved, position, progress_succeeds, store_step, transition_succeeds, ActionStore,
};

verus! {

/// What a check of an external process found.
#[derive(Clone, Debug, PartialEq, Eq)]
pub enum CheckOutcome {
    /// The process is still running.
    Running,
    /// The process succeeded, with its captured output.
    Succeeded(String),
    /// The process failed, with its captured standard out and standard error.
    Failed(String, String),
}

/// What to do after a check.
#[derive(Clone, Debug, PartialEq, Eq)]
pub enum PollStep {
    /// Check again later.
    Wait,
    /// Move the record to the given terminal state with the given payload.
    Finish(ActionState, StatePayload),
}

/// Whether `serde_json` reads the text as one JSON value.
pub uninterp spec fn json_valid(text: Seq<char>) -> bool;

/// Relies on serde_json::from_str, to tell whether captured output decodes as
/// a JSON value.
#[verifier::external_body]
pub(crate) fn decodes_as_json(text: &str) -> (r: bool)
    ensures
        r == json_valid(text@),
{
    serde_json::from_str::<serde_json::Value>(text).is_ok()
}

/// The step a check leads to. A failed process fails the record with its
/// output; a cancelled one fails it as cancelled; a successful one is done
/// with its output, unless the output does not decode, in which case the raw
/// output is kept in the failure; one still running past its maximum wait
/// fails with a timeout; otherwise the manager checks again later.
pub open spec fn poll_spec(
    outcome: CheckOutcome,
    elapsed_ms: u64,
    max_wait_ms: u64,
    cancelled: bool,
    decoded: bool,
) -> PollStep {
    match outcome {
        CheckOutcome::Failed(out, err) => PollStep::Finish(
            ActionState::Failed,
            StatePayload::CheckFailed(out, err),
        ),
        CheckOutcome::Succeeded(out) => if cancelled {
            PollStep::Finish(ActionState::Failed, StatePayload::Cancelled)
        } else if decoded {
            PollStep::Finish(ActionState::Done, StatePayload::Output(out))
        } else {
            PollStep::Finish(ActionState::Failed, StatePayload::DecodeFailed(out))
        },
        CheckOutcome::Running => if cancelled {
            PollStep::Finish(ActionState::Failed, StatePayload::Cancelled)
        } else if elapsed_ms >= max_wait_ms {
            PollStep::Finish(ActionState::Failed, StatePayload::Timeout(elapsed_ms))
        } else {
            PollStep::Wait
        },
    }
}

/// The step after a check, given whether a successful output decoded.
pub fn poll_step(
    outcome: CheckOutcome,
    elapsed_ms: u64,
    max_wait_ms: u64,
    cancelled: bool,
    decoded: bool,
) -> (r: PollStep)
    ensures
        r == poll_spec(outcome, elapsed_ms, max_wait_ms, cancelled, decoded),
        r is Wait ==> elapsed_ms < max_wait_ms,
        outcome is Running && !cancelled && elapsed_ms >= max_wait_ms ==> r == PollStep::Finish(
            ActionState::Failed,
            StatePayload::Timeout(elapsed_ms),
        ),
{
    match outcome {
        CheckOutcome::Failed(out, err) => PollStep::Finish(
            ActionState::Failed,
            StatePayload::CheckFailed(out, err),
        ),
        CheckOutcome::Succeeded(out) => {
            if cancelled {
                PollStep::Finish(ActionState::Failed, StatePayload::Cancelled)
            } else if decoded {
                PollStep::Finish(ActionState::Done, StatePayload::Output(out))
            } else {
                PollStep::Finish(ActionState::Failed, StatePayload::DecodeFailed(out))
            }
        },
        CheckOutcome::Running => {
            if cancelled {
                PollStep::Finish(ActionState::Failed, StatePayload::Cancelled)
            } else if elapsed_ms >= max_wait_ms {
                PollStep::Finish(ActionState::Failed, StatePayload::Timeout(elapsed_ms))
            } else {
                PollStep::Wait
            }
        },
    }
}

/// Whether the outcome's output decodes, as far as the step depends on it.
pub open spec fn outcome_decodes(outcome: CheckOutcome) -> bool {
    match outcome {
        CheckOutcome::Succeeded(out) => json_valid(out@),
        _ => true,
    }
}

/// The step after a check, decoding a successful output as JSON.
pub fn decide_poll(outcome: CheckOutcome, elapsed_ms: u64, max_wait_ms: u64, cancelled: bool) -> (r:
    PollStep)
    ensures
        r == poll_spec(outcome, elapsed_ms, max_wait_ms, cancelled, outcome_decodes(outcome)),
        r is Wait ==> elapsed_ms < max_wait_ms,
{
    let decoded = match &outcome {
        CheckOutcome::Succeeded(out) => decodes_as_json(out.as_str()),
        _ => true,
    };
    poll_step(outcome, elapsed_ms, max_wait_ms, cancelled, decoded)
}

/// A record whose polling never ends: once the maximum wait has passed, every
/// check leads to a terminal state, whatever the process reports.
pub proof fn lemma_timeout_ends_polling(
    outcome: CheckOutcome,
    elapsed_ms: u64,
    max_wait_ms: u64,
    cancelled: bool,
    decoded: bool,
)
    requires
        elapsed_ms >= max_wait_ms,
    ensures
        poll_spec(outcome, elapsed_ms, max_wait_ms, cancelled, decoded) is Finish,
        outcome is Running && !cancelled ==> poll_spec(
            outcome,
            elapsed_ms,
            max_wait_ms,
            cancelled,
            decoded,
        ) == PollStep::Finish(ActionState::Failed, StatePayload::Timeout(elapsed_ms)),
{
}

/// Records the result of launching the external process of the Running
/// record `id`: its handle is kept in the payload, or, when the launch
/// failed, the record goes straight to Failed with the captured output.
pub fn apply_start(
    store: &mut ActionStore,
    id: u128,
    expected: u64,
    started: Result<String, (String, String)>,
) -> (r: Result<u64, ErrorKind>)
    requires
        old(store).wf(),
    ensures
        final(store).wf(),
        store_step(old(store).entries(), final(store).entries()),
        r is Err ==> final(store).entries() == old(store).entries(),
        match started {
            Ok(h) => {
                &&& r is Ok <==> progress_succeeds(old(store).entries(), id, expected)
                &&& r is Ok ==> final(store).entries() == old(store).entries().update(
                    position(old(store).entries(), id),
                    moved(
                        old(store).entries()[position(old(store).entries(), id)],
                        ActionState::Running,
                        Some(StatePayload::Handle(h)),
                    ),
                )
            },
            Err((out, err)) => {
                &&& r is Ok <==> transition_succeeds(
                    old(store).entries(),
                    id,
                    expected,
                    ActionState::Failed,
                )
                &&& r is Ok ==> final(store).entries() == old(store).entries().update(
                    position(old(store).entries(), id),
                    moved(
                        old(store).entries()[position(old(store).entries(), id)],
                        ActionState::Failed,
                        Some(StatePayload::StartFailed(out, err)),
                    ),
                )
            },
        },
{
    match started {
        Ok(h) => store.record_progress(id, expected, Some(StatePayload::Handle(h))),
        Err((out, err)) => store.transition(
            id,
            expected,
            ActionState::Failed,
            Some(StatePayload::StartFailed(out, err)),
        ),
    }
}

/// Applies the step of a check to the record `id`: a terminal step moves it
/// there (`Some` new version), a wait leaves the store as it is (`None`).
pub fn apply_poll(store: &mut ActionStore, id: u128, expected: u64, step: PollStep) -> (r: Result<
    Option<u64>,
    ErrorKind,
>)
    requires
        old(store).wf(),
    ensures
        final(store).wf(),
        store_step(old(store).entries(), final(store).entries()),
        r is Err ==> final(store).entries() == old(store).entries(),
        match step {
            PollStep::Wait => r == Ok::<Option<u64>, ErrorKind>(None) && final(store).entries()
                == old(store).entries(),
            PollStep::Finish(state, payload) => {
                &&& r is Ok <==> transition_succeeds(old(store).entries(), id, expected, state)
                &&& r is Ok ==> r->Ok_0 == Some((expected + 1) as u64) && final(store).entries()
                    == old(store).entries().update(
                    position(old(store).entries(), id),
                    moved(
                        old(store).entries()[position(old(store).entries(), id)],
                        state,
                        Some(payload),
                    ),
                )
            },
        },
{
    match step {
        PollStep::Wait => Ok(None),
        PollStep::Finish(state, payload) => match store.transition(
            id,
            expected,
            state,
            Some(payload),
        ) {
            Ok(v) => Ok(Some(v)),
            Err(e) => Err(e),
        },
    }
}

} // verus!
