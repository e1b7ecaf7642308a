use repliagent::actions::{ActionRecord, ActionRequester, ActionState, StatePayload};
use repliagent::error::ErrorKind;
use repliagent::store::ActionStore;

fn record(id: u128, ts: i64) -> ActionRecord {
    ActionRecord::with_identity(
        "agent.test.ping".to_string(),
        r#"{"a": [1, 2]}"#.to_string(),
        ActionRequester::Api,
        id,
        ts,
    )
}

#[test]
fn create_then_read_keeps_args_and_state_new() {
    let mut store = ActionStore::new();
    assert_eq!(store.create(record(7, 100)), Ok(0));
    let back = store.read(7).unwrap();
    assert_eq!(back.args, r#"{"a": [1, 2]}"#);
    assert_eq!(back.state, ActionState::New);
    assert_eq!(back.action, "agent.test.ping");
    assert_eq!(back.created_ts, 100);
    assert_eq!(back.state_payload, None);
}

#[test]
fn create_duplicate_id_fails() {
    let mut store = ActionStore::new();
    store.create(record(7, 100)).unwrap();
    assert_eq!(store.create(record(7, 200)), Err(ErrorKind::ActionAlreadyExists(7)));
    assert_eq!(store.len(), 1);
}

#[test]
fn read_missing_fails() {
    let store = ActionStore::new();
    assert_eq!(store.read(3), Err(ErrorKind::ActionNotFound(3)));
}

#[test]
fn second_lease_attempt_fails_without_change() {
    let mut store = ActionStore::new();
    store.create(record(1, 10)).unwrap();
    let v = store.version_of(1).unwrap();
    assert_eq!(store.acquire_lease(1, v, 50, 1050), Ok(v + 1));
    let before = store.read(1).unwrap();
    assert_eq!(store.acquire_lease(1, v, 50, 2050), Err(ErrorKind::ActionConflict(1)));
    assert_eq!(store.read(1).unwrap(), before);
    assert_eq!(store.version_of(1), Some(v + 1));
    assert_eq!(before.state, ActionState::Running);
}

#[test]
fn held_lease_cannot_be_reclaimed_until_expired() {
    let mut store = ActionStore::new();
    store.create(record(1, 10)).unwrap();
    store.acquire_lease(1, 0, 50, 1000).unwrap();
    assert_eq!(store.acquire_lease(1, 1, 500, 2000), Err(ErrorKind::ActionConflict(1)));
    assert_eq!(store.acquire_lease(1, 1, 1000, 2000), Ok(2));
}

#[test]
fn interleaved_creates_list_in_creation_order() {
    let mut store = ActionStore::new();
    store.create(record(1, 100)).unwrap();
    store.create(record(2, 90)).unwrap();
    store.create(record(3, 150)).unwrap();
    store.create(record(4, 120)).unwrap();
    let ids: Vec<u128> = store.list().iter().map(|i| i.id).collect();
    assert_eq!(ids, vec![1, 2, 3, 4]);
    let ts: Vec<i64> = (1..5).map(|id| store.read(id).unwrap().created_ts).collect();
    assert_eq!(ts, vec![100, 100, 150, 150]);
}

#[test]
fn transitions_only_move_forward() {
    let mut store = ActionStore::new();
    store.create(record(1, 10)).unwrap();
    assert_eq!(store.transition(1, 0, ActionState::New, None), Err(ErrorKind::ActionInvalidTransition(1)));
    assert_eq!(store.acquire_lease(1, 0, 0, 10), Ok(1));
    assert_eq!(store.transition(1, 1, ActionState::Done, Some(StatePayload::Output("ok".to_string()))), Ok(2));
    assert_eq!(store.transition(1, 2, ActionState::Failed, None), Err(ErrorKind::ActionInvalidTransition(1)));
    assert_eq!(store.transition(1, 1, ActionState::Failed, None), Err(ErrorKind::ActionConflict(1)));
    assert_eq!(store.transition(9, 0, ActionState::Failed, None), Err(ErrorKind::ActionNotFound(9)));
    let r = store.read(1).unwrap();
    assert_eq!(r.state, ActionState::Done);
    assert_eq!(r.state_payload, Some(StatePayload::Output("ok".to_string())));
}

#[test]
fn progress_keeps_running() {
    let mut store = ActionStore::new();
    store.create(record(1, 10)).unwrap();
    assert_eq!(store.record_progress(1, 0, None), Err(ErrorKind::ActionInvalidTransition(1)));
    store.acquire_lease(1, 0, 0, 10).unwrap();
    assert_eq!(store.record_progress(1, 1, Some(StatePayload::Handle("h".to_string()))), Ok(2));
    let r = store.read(1).unwrap();
    assert_eq!(r.state, ActionState::Running);
    assert_eq!(r.state_payload, Some(StatePayload::Handle("h".to_string())));
}

#[test]
fn expired_leases_lists_running_records_past_their_lease() {
    let mut store = ActionStore::new();
    store.create(record(1, 10)).unwrap();
    store.create(record(2, 10)).unwrap();
    store.create(record(3, 10)).unwrap();
    store.acquire_lease(1, 0, 0, 100).unwrap();
    store.acquire_lease(2, 0, 0, 500).unwrap();
    assert_eq!(store.expired_leases(200), vec![1]);
    assert_eq!(store.expired_leases(600), vec![1, 2]);
}

#[test]
fn listing_resumes_after_last_seen_sequence() {
    let mut store = ActionStore::new();
    store.create(record(1, 10)).unwrap();
    store.create(record(2, 20)).unwrap();
    let first = store.list_since(0);
    assert_eq!(first.iter().map(|(_, i)| i.id).collect::<Vec<_>>(), vec![1, 2]);
    let last_seen = first[1].0;
    store.create(record(3, 5)).unwrap();
    let rest = store.list_since(last_seen + 1);
    assert_eq!(rest.len(), 1);
    assert_eq!(rest[0].1.id, 3);
    assert_eq!(rest[0].1.state, ActionState::New);
}
