use repliagent::actions::{ActionRecord, ActionRequester, ActionState, StatePayload};
use repliagent::catalog::{ActionCatalog, PingAction, RequestError};
use repliagent::error::ErrorKind;
use repliagent::external::{apply_poll, apply_start, decide_poll, poll_step, CheckOutcome, PollStep};
use repliagent::lifecycle::{
    cancel, complete_invocation, dequeue, lease_deadline, recover, run_in_process, submit,
    Dispatch,
};
use repliagent::store::ActionStore;

fn catalog() -> ActionCatalog<PingAction> {
    let mut c = ActionCatalog::new();
    c.register(PingAction::new("agent.test.ping".to_string(), "does nothing".to_string()))
        .unwrap();
    c
}

fn submitted(store: &mut ActionStore, id: u128) {
    submit(&catalog(), store, "agent.test.ping".to_string(), "{}".to_string(), ActionRequester::Api, id, 5)
        .unwrap();
}

#[test]
fn duplicate_kind_registration_fails() {
    let mut c = catalog();
    let r = c.register(PingAction::new("agent.test.ping".to_string(), "again".to_string()));
    assert!(matches!(r, Err(ErrorKind::ConfigClash(_))));
    assert_eq!(c.len(), 1);
}

#[test]
fn submit_unknown_kind_stores_nothing() {
    let mut store = ActionStore::new();
    let r = submit(&catalog(), &mut store, "agent.other".to_string(), "{}".to_string(), ActionRequester::Api, 1, 5);
    assert_eq!(r, Err(RequestError::NotAvailable(ErrorKind::ActionNotAvailable("agent.other".to_string()))));
    assert_eq!(store.len(), 0);
}

#[test]
fn submit_invalid_args_stores_nothing() {
    let mut store = ActionStore::new();
    let r = submit(&catalog(), &mut store, "agent.test.ping".to_string(), "{not json".to_string(), ActionRequester::Api, 1, 5);
    assert!(matches!(r, Err(RequestError::Invalid(_))));
    assert_eq!(store.len(), 0);
}

#[test]
fn submit_then_read_gives_new_record() {
    let mut store = ActionStore::new();
    submitted(&mut store, 9);
    let r = store.read(9).unwrap();
    assert_eq!(r.args, "{}");
    assert_eq!(r.state, ActionState::New);
}

#[test]
fn dequeue_and_run_in_process() {
    let c = catalog();
    let mut store = ActionStore::new();
    submitted(&mut store, 1);
    let d = dequeue(&c, &mut store, 1, 100, 1000).unwrap();
    assert_eq!(d, Dispatch::Started { index: 0, version: 1 });
    assert_eq!(store.read(1).unwrap().state, ActionState::Running);
    assert_eq!(run_in_process(&c, &mut store, 1, 0, 1), Ok(2));
    assert_eq!(store.read(1).unwrap().state, ActionState::Done);
}

#[test]
fn dequeue_of_unregistered_kind_fails_record() {
    let c = catalog();
    let empty: ActionCatalog<PingAction> = ActionCatalog::new();
    let mut store = ActionStore::new();
    submit(&c, &mut store, "agent.test.ping".to_string(), "{}".to_string(), ActionRequester::Api, 1, 5).unwrap();
    assert_eq!(dequeue(&empty, &mut store, 1, 100, 1000), Ok(Dispatch::Refused { version: 1 }));
    let r = store.read(1).unwrap();
    assert_eq!(r.state, ActionState::Failed);
    assert_eq!(r.state_payload, Some(StatePayload::KindUnavailable("agent.test.ping".to_string())));
}

#[test]
fn dequeue_of_incompatible_agent_version_fails_record() {
    let c = catalog();
    let mut store = ActionStore::new();
    let mut rec = ActionRecord::with_identity("agent.test.ping".to_string(), "{}".to_string(), ActionRequester::Api, 4, 1);
    rec.agent_version = "7.0.0".to_string();
    store.create(rec).unwrap();
    assert_eq!(dequeue(&c, &mut store, 4, 100, 1000), Ok(Dispatch::Refused { version: 1 }));
    assert_eq!(store.read(4).unwrap().state, ActionState::Failed);
}

#[test]
fn invocation_failure_is_recorded() {
    let c = catalog();
    let mut store = ActionStore::new();
    submitted(&mut store, 1);
    dequeue(&c, &mut store, 1, 0, 10).unwrap();
    assert_eq!(complete_invocation(&mut store, 1, 1, Err("boom".to_string())), Ok(2));
    let r = store.read(1).unwrap();
    assert_eq!(r.state, ActionState::Failed);
    assert_eq!(r.state_payload, Some(StatePayload::InvokeFailed("boom".to_string())));
}

#[test]
fn start_failure_lands_in_failed() {
    let c = catalog();
    let mut store = ActionStore::new();
    submitted(&mut store, 1);
    dequeue(&c, &mut store, 1, 0, 10).unwrap();
    let r = apply_start(&mut store, 1, 1, Err(("out".to_string(), "no such file".to_string())));
    assert_eq!(r, Ok(2));
    let rec = store.read(1).unwrap();
    assert_eq!(rec.state, ActionState::Failed);
    assert_eq!(rec.state_payload, Some(StatePayload::StartFailed("out".to_string(), "no such file".to_string())));
}

#[test]
fn start_success_keeps_handle() {
    let c = catalog();
    let mut store = ActionStore::new();
    submitted(&mut store, 1);
    dequeue(&c, &mut store, 1, 0, 10).unwrap();
    assert_eq!(apply_start(&mut store, 1, 1, Ok("pid-42".to_string())), Ok(2));
    let rec = store.read(1).unwrap();
    assert_eq!(rec.state, ActionState::Running);
    assert_eq!(rec.state_payload, Some(StatePayload::Handle("pid-42".to_string())));
}

#[test]
fn polling_past_max_wait_times_out() {
    assert_eq!(poll_step(CheckOutcome::Running, 100, 500, false, true), PollStep::Wait);
    assert_eq!(
        poll_step(CheckOutcome::Running, 500, 500, false, true),
        PollStep::Finish(ActionState::Failed, StatePayload::Timeout(500))
    );
    let c = catalog();
    let mut store = ActionStore::new();
    submitted(&mut store, 1);
    dequeue(&c, &mut store, 1, 0, 10).unwrap();
    let step = decide_poll(CheckOutcome::Running, 700, 500, false);
    assert_eq!(apply_poll(&mut store, 1, 1, step), Ok(Some(2)));
    let rec = store.read(1).unwrap();
    assert_eq!(rec.state, ActionState::Failed);
    assert_eq!(rec.state_payload, Some(StatePayload::Timeout(700)));
}

#[test]
fn poll_outcomes() {
    assert_eq!(
        decide_poll(CheckOutcome::Succeeded("{\"ok\": true}".to_string()), 1, 500, false),
        PollStep::Finish(ActionState::Done, StatePayload::Output("{\"ok\": true}".to_string()))
    );
    assert_eq!(
        decide_poll(CheckOutcome::Succeeded("garbage".to_string()), 1, 500, false),
        PollStep::Finish(ActionState::Failed, StatePayload::DecodeFailed("garbage".to_string()))
    );
    assert_eq!(
        decide_poll(CheckOutcome::Failed("o".to_string(), "e".to_string()), 1, 500, false),
        PollStep::Finish(ActionState::Failed, StatePayload::CheckFailed("o".to_string(), "e".to_string()))
    );
    assert_eq!(
        decide_poll(CheckOutcome::Running, 1, 500, true),
        PollStep::Finish(ActionState::Failed, StatePayload::Cancelled)
    );
}

#[test]
fn wait_step_leaves_store_alone() {
    let mut store = ActionStore::new();
    submitted(&mut store, 1);
    assert_eq!(apply_poll(&mut store, 1, 0, PollStep::Wait), Ok(None));
    assert_eq!(store.read(1).unwrap().state, ActionState::New);
}

#[test]
fn cancel_new_and_running() {
    let c = catalog();
    let mut store = ActionStore::new();
    submitted(&mut store, 1);
    submitted(&mut store, 2);
    assert_eq!(cancel(&mut store, 1), Ok(true));
    assert_eq!(store.read(1).unwrap().state_payload, Some(StatePayload::Cancelled));
    dequeue(&c, &mut store, 2, 0, 10).unwrap();
    assert_eq!(cancel(&mut store, 2), Ok(false));
    assert_eq!(store.read(2).unwrap().state, ActionState::Running);
    assert_eq!(cancel(&mut store, 1), Err(ErrorKind::ActionInvalidTransition(1)));
    assert_eq!(cancel(&mut store, 3), Err(ErrorKind::ActionNotFound(3)));
}

#[test]
fn recovery_resumes_external_and_fails_in_process() {
    let c = catalog();
    let mut store = ActionStore::new();
    submitted(&mut store, 1);
    submitted(&mut store, 2);
    submitted(&mut store, 3);
    dequeue(&c, &mut store, 1, 0, 10).unwrap();
    dequeue(&c, &mut store, 2, 0, 10).unwrap();
    apply_start(&mut store, 1, 1, Ok("h1".to_string())).unwrap();
    let resumed = recover(&mut store, 100, 50);
    assert_eq!(resumed.len(), 1);
    assert_eq!(resumed[0].id, 1);
    assert_eq!(resumed[0].handle, "h1");
    assert_eq!(store.version_of(1), Some(resumed[0].version));
    assert_eq!(store.read(2).unwrap().state, ActionState::Failed);
    assert_eq!(store.read(2).unwrap().state_payload, Some(StatePayload::Abandoned));
    assert_eq!(store.read(3).unwrap().state, ActionState::New);
}

#[test]
fn lease_deadline_saturates() {
    assert_eq!(lease_deadline(100, 50), 150);
    assert_eq!(lease_deadline(i64::MAX - 10, 50), i64::MAX);
}

#[test]
fn request_action_stores_fresh_record() {
    let c = catalog();
    let mut store = ActionStore::new();
    let a = repliagent::lifecycle::request_action(&c, &mut store, "agent.test.ping".to_string(), "[1]".to_string(), ActionRequester::Api).unwrap();
    let b = repliagent::lifecycle::request_action(&c, &mut store, "agent.test.ping".to_string(), "[2]".to_string(), ActionRequester::Api).unwrap();
    assert_ne!(a, b);
    assert_eq!(store.read(a).unwrap().args, "[1]");
    assert_eq!(store.read(b).unwrap().state, ActionState::New);
    let ids: Vec<u128> = store.list().iter().map(|i| i.id).collect();
    assert_eq!(ids, vec![a, b]);
}

#[test]
fn request_ids_are_ordered_by_creation() {
    let c = catalog();
    let mut store = ActionStore::new();
    let mut ids = Vec::new();
    for _ in 0..20 {
        ids.push(repliagent::lifecycle::request_action(&c, &mut store, "agent.test.ping".to_string(), "{}".to_string(), ActionRequester::Api).unwrap());
    }
    let mut sorted = ids.clone();
    sorted.sort();
    assert_eq!(ids, sorted);
    let listed: Vec<u128> = store.list().iter().map(|i| i.id).collect();
    assert_eq!(listed, ids);
}
