//! Drives records through New, Running, then Done or Failed, using the
//! catalog to decide what runs and the store to make each step atomic.
use vstd::prelude::*;

use crate::actions::{
    finished, Action, ActionRecord, ActionRequester, ActionState, StatePayload, AGENT_VERSION,
};
use crate::catalog::{ActionCatalog, RequestError};
use crate::error::ErrorKind;
use crate::store::{
    acquired, has_id, leased, moved, position, store_step, transition_succeeds, ActionStore,
    StoredAction,
};
use crate::version::{compatible_versions, semver_parse, versions_compatible};

verus! {

/// What a dequeue did with a record.
#[derive(Clone, Copy, Debug, PartialEq, Eq, Structural)]
pub enum Dispatch {
    /// The lease was taken: the action at `index` of the catalog runs, and
    /// the record now has `version`.
    Started { index: usize, version: u64 },
    /// The record's kind or agent version is not available: it was failed,
    /// and now has `version`.
    Refused { version: u64 },
}

/// The end of a lease taken at `now` for `lease_ms`, saturating at the largest time.
pub open spec fn deadline(now: i64, lease_ms: u32) -> i64 {
    if now + lease_ms > i64::MAX {
        i64::MAX
    } else {
        (now + lease_ms) as i64
    }
}

/// The end of a lease taken at `now` for `lease_ms`.
pub fn lease_deadline(now: i64, lease_ms: u32) -> (r: i64)
    ensures
        r == deadline(now, lease_ms),
{
    if now > i64::MAX - (lease_ms as i64) {
        i64::MAX
    } else {
        now + lease_ms as i64
    }
}

/// The catalog can still run a record: its kind is registered and the agent
/// version that validated it is compatible with this agent's.
pub open spec fn runnable<A: Action>(catalog: ActionCatalog<A>, r: ActionRecord) -> bool {
    &&& catalog.kinds().contains(r.action@)
    &&& compatible_versions(semver_parse(r.agent_version@), semver_parse(AGENT_VERSION@))
}

/// Accepts a request: validates it against the catalog, then stores a new
/// record in state New with the given id and creation time. Nothing is stored
/// when validation fails.
pub fn submit<A: Action>(
    catalog: &ActionCatalog<A>,
    store: &mut ActionStore,
    kind: String,
    args: String,
    requester: ActionRequester,
    id: u128,
    created_ts: i64,
) -> (r: Result<u128, RequestError>)
    requires
        catalog.wf(),
        old(store).wf(),
    ensures
        final(store).wf(),
        store_step(old(store).entries(), final(store).entries()),
        !catalog.kinds().contains(kind@) ==> r == Err::<u128, RequestError>(
            RequestError::NotAvailable(ErrorKind::ActionNotAvailable(kind)),
        ),
        r is Err ==> final(store).entries() == old(store).entries(),
        r is Ok ==> {
            let e = final(store).entries().last();
            &&& r->Ok_0 == id
            &&& catalog.kinds().contains(kind@)
            &&& final(store).entries().len() == old(store).entries().len() + 1
            &&& final(store).entries().drop_last() == old(store).entries()
            &&& e.record.id == id
            &&& e.record.action@ == kind@
            &&& e.record.args@ == args@
            &&& e.record.requester == requester
            &&& e.record.state == ActionState::New
            &&& e.record.state_payload is None
        },
        r is Err && r->Err_0 is Store ==> has_id(old(store).entries(), id) || old(
            store,
        ).next_seq() == u64::MAX,
        r matches Err(RequestError::NotAvailable(_)) ==> !catalog.kinds().contains(kind@),
        r matches Err(RequestError::Invalid(_)) ==> !catalog.accepts(kind@, args@),
        r matches Err(RequestError::Store(ErrorKind::ActionAlreadyExists(x))) ==> x == id
            && has_id(old(store).entries(), id),
        catalog.accepts(kind@, args@) && has_id(old(store).entries(), id) ==> r == Err::<
            u128,
            RequestError,
        >(RequestError::Store(ErrorKind::ActionAlreadyExists(id))),
        r is Ok <==> catalog.accepts(kind@, args@) && !has_id(old(store).entries(), id) && old(
            store,
        ).next_seq() < u64::MAX,
{
    match catalog.validate(&kind, &args) {
        Err(e) => {
            return Err(e);
        },
        Ok(_) => {},
    }
    let record = ActionRecord::with_identity(kind, args, requester, id, created_ts);
    match store.create(record) {
        Ok(_) => {
            assert(final(store).entries().drop_last() =~= old(store).entries());
            Ok(id)
        },
        Err(e) => Err(RequestError::Store(e)),
    }
}

/// Accepts a request from a client: a fresh random id and the current time
/// identify the new record, which `submit` validates and stores.
pub fn request_action<A: Action>(
    catalog: &ActionCatalog<A>,
    store: &mut ActionStore,
    kind: String,
    args: String,
    requester: ActionRequester,
) -> (r: Result<u128, RequestError>)
    requires
        catalog.wf(),
        old(store).wf(),
    ensures
        final(store).wf(),
        store_step(old(store).entries(), final(store).entries()),
        !catalog.kinds().contains(kind@) ==> r == Err::<u128, RequestError>(
            RequestError::NotAvailable(ErrorKind::ActionNotAvailable(kind)),
        ),
        r is Err ==> final(store).entries() == old(store).entries(),
        r is Ok ==> {
            let e = final(store).entries().last();
            &&& final(store).entries().drop_last() == old(store).entries()
            &&& e.record.id == r->Ok_0
            &&& e.record.action@ == kind@
            &&& e.record.args@ == args@
            &&& e.record.requester == requester
            &&& e.record.state == ActionState::New
        },
        r matches Err(RequestError::NotAvailable(_)) ==> !catalog.kinds().contains(kind@),
        r matches Err(RequestError::Invalid(_)) ==> !catalog.accepts(kind@, args@),
        r matches Err(RequestError::Store(ErrorKind::ActionAlreadyExists(x))) ==> has_id(
            old(store).entries(),
            x,
        ),
        catalog.accepts(kind@, args@) && old(store).next_seq() < u64::MAX ==> r is Ok || r matches Err(
            RequestError::Store(ErrorKind::ActionAlreadyExists(_)),
        ),
{
    let id = crate::actions::fresh_action_id();
    let created_ts = crate::actions::now_millis();
    submit(catalog, store, kind, args, requester, id, created_ts)
}

/// Takes a New record `id` off the queue at `now`. If the catalog can still
/// run it, its lease is taken for `lease_ms` (New to Running) and the index of
/// its action is returned; otherwise it goes straight to Failed with the kind
/// as payload. On an error the store is unchanged and the record is left for
/// the next sweep.
pub fn dequeue<A: Action>(
    catalog: &ActionCatalog<A>,
    store: &mut ActionStore,
    id: u128,
    now: i64,
    lease_ms: u32,
) -> (r: Result<Dispatch, ErrorKind>)
    requires
        catalog.wf(),
        old(store).wf(),
    ensures
        final(store).wf(),
        store_step(old(store).entries(), final(store).entries()),
        r is Err ==> final(store).entries() == old(store).entries(),
        !has_id(old(store).entries(), id) ==> r == Err::<Dispatch, ErrorKind>(
            ErrorKind::ActionNotFound(id),
        ),
        has_id(old(store).entries(), id) ==> ({
            let s = old(store).entries();
            let e = s[position(s, id)];
            &&& r matches Ok(Dispatch::Started { index, version }) ==> {
                &&& runnable(*catalog, e.record)
                &&& index < catalog.kinds().len()
                &&& catalog.kinds()[index as int] == e.record.action@
                &&& version == e.version + 1
                &&& final(store).entries() == acquired(s, id, deadline(now, lease_ms))
            }
            &&& r matches Ok(Dispatch::Refused { version }) ==> {
                &&& !runnable(*catalog, e.record)
                &&& version == e.version + 1
                &&& final(store).entries() == s.update(
                    position(s, id),
                    moved(
                        e,
                        ActionState::Failed,
                        Some(StatePayload::KindUnavailable(e.record.action)),
                    ),
                )
            }
            &&& e.record.state == ActionState::New && e.version < u64::MAX ==> r is Ok
        }),
{
    let record = match store.read(id) {
        Ok(record) => record,
        Err(e) => return Err(e),
    };
    let version = match store.version_of(id) {
        Some(v) => v,
        None => return Err(ErrorKind::ActionNotFound(id)),
    };
    let found = catalog.lookup(&record.action);
    let compatible = versions_compatible(record.agent_version.as_str(), AGENT_VERSION);
    match found {
        Some(index) => {
            if compatible {
                let until = lease_deadline(now, lease_ms);
                match store.acquire_lease(id, version, now, until) {
                    Ok(v) => Ok(Dispatch::Started { index, version: v }),
                    Err(e) => Err(e),
                }
            } else {
                refuse(store, id, version, record.action)
            }
        },
        None => refuse(store, id, version, record.action),
    }
}

/// Fails a record whose kind cannot run any more.
fn refuse(store: &mut ActionStore, id: u128, version: u64, kind: String) -> (r: Result<
    Dispatch,
    ErrorKind,
>)
    requires
        old(store).wf(),
        has_id(old(store).entries(), id),
        old(store).entries()[position(old(store).entries(), id)].version == version,
    ensures
        final(store).wf(),
        store_step(old(store).entries(), final(store).entries()),
        r is Err ==> final(store).entries() == old(store).entries(),
        r is Ok ==> r == Ok::<Dispatch, ErrorKind>(Dispatch::Refused { version: (version + 1) as u64 }),
        r is Ok ==> final(store).entries() == old(store).entries().update(
            position(old(store).entries(), id),
            moved(
                old(store).entries()[position(old(store).entries(), id)],
                ActionState::Failed,
                Some(StatePayload::KindUnavailable(kind)),
            ),
        ),
        r is Ok <==> transition_succeeds(old(store).entries(), id, version, ActionState::Failed),
{
    match store.transition(
        id,
        version,
        ActionState::Failed,
        Some(StatePayload::KindUnavailable(kind)),
    ) {
        Ok(v) => Ok(Dispatch::Refused { version: v }),
        Err(e) => Err(e),
    }
}

/// Commits what an in-process invocation of the Running record `id`
/// returned: Done on success, Failed with the reason otherwise.
pub fn complete_invocation(
    store: &mut ActionStore,
    id: u128,
    expected: u64,
    outcome: Result<(), String>,
) -> (r: Result<u64, ErrorKind>)
    requires
        old(store).wf(),
    ensures
        final(store).wf(),
        store_step(old(store).entries(), final(store).entries()),
        r is Err ==> final(store).entries() == old(store).entries(),
        ({
            let (next, payload) = match outcome {
                Ok(()) => (ActionState::Done, None::<StatePayload>),
                Err(m) => (ActionState::Failed, Some(StatePayload::InvokeFailed(m))),
            };
            &&& r is Ok <==> transition_succeeds(old(store).entries(), id, expected, next)
            &&& r is Ok ==> final(store).entries() == old(store).entries().update(
                position(old(store).entries(), id),
                moved(old(store).entries()[position(old(store).entries(), id)], next, payload),
            )
        }),
{
    match outcome {
        Ok(()) => store.transition(id, expected, ActionState::Done, None),
        Err(m) => store.transition(
            id,
            expected,
            ActionState::Failed,
            Some(StatePayload::InvokeFailed(m)),
        ),
    }
}

/// Runs the action at `index` of the catalog on the Running record `id` and
/// commits its result. Whatever the action returns, a committed record is
/// finished.
pub fn run_in_process<A: Action>(
    catalog: &ActionCatalog<A>,
    store: &mut ActionStore,
    id: u128,
    index: usize,
    expected: u64,
) -> (r: Result<u64, ErrorKind>)
    requires
        catalog.wf(),
        old(store).wf(),
        index < catalog.kinds().len(),
    ensures
        final(store).wf(),
        store_step(old(store).entries(), final(store).entries()),
        r is Err ==> final(store).entries() == old(store).entries(),
        r is Ok <==> transition_succeeds(old(store).entries(), id, expected, ActionState::Done),
        r is Ok ==> {
            let s = old(store).entries();
            let e = s[position(s, id)];
            ||| final(store).entries() == s.update(
                position(s, id),
                moved(e, ActionState::Done, None),
            )
            ||| exists|m: String|
                final(store).entries() == s.update(
                    position(s, id),
                    #[trigger] moved(e, ActionState::Failed, Some(StatePayload::InvokeFailed(m))),
                )
        },
        r is Ok ==> has_id(old(store).entries(), id) && finished(
            final(store).entries()[position(old(store).entries(), id)].record.state,
        ),
{
    let record = match store.read(id) {
        Ok(record) => record,
        Err(e) => return Err(e),
    };
    let outcome = catalog.get(index).invoke(&record);
    complete_invocation(store, id, expected, outcome)
}

/// Cancels the record `id`. A New record, whose work has not started, is
/// failed at once (`Ok(true)`); for a Running one the caller stops polling and
/// the next check fails it (`Ok(false)`, store unchanged). A finished record
/// cannot be cancelled.
pub fn cancel(store: &mut ActionStore, id: u128) -> (r: Result<bool, ErrorKind>)
    requires
        old(store).wf(),
    ensures
        final(store).wf(),
        store_step(old(store).entries(), final(store).entries()),
        r is Err || r == Ok::<bool, ErrorKind>(false) ==> final(store).entries() == old(
            store,
        ).entries(),
        !has_id(old(store).entries(), id) ==> r == Err::<bool, ErrorKind>(
            ErrorKind::ActionNotFound(id),
        ),
        has_id(old(store).entries(), id) ==> ({
            let s = old(store).entries();
            let e = s[position(s, id)];
            &&& e.record.state == ActionState::Running ==> r == Ok::<bool, ErrorKind>(false)
            &&& finished(e.record.state) ==> r == Err::<bool, ErrorKind>(
                ErrorKind::ActionInvalidTransition(id),
            )
            &&& e.record.state == ActionState::New && e.version < u64::MAX ==> r == Ok::<
                bool,
                ErrorKind,
            >(true)
            &&& r == Ok::<bool, ErrorKind>(true) ==> final(store).entries() == s.update(
                position(s, id),
                moved(e, ActionState::Failed, Some(StatePayload::Cancelled)),
            )
        }),
{
    let record = match store.read(id) {
        Ok(record) => record,
        Err(e) => return Err(e),
    };
    let version = match store.version_of(id) {
        Some(v) => v,
        None => return Err(ErrorKind::ActionNotFound(id)),
    };
    match record.state {
        ActionState::New => match store.transition(
            id,
            version,
            ActionState::Failed,
            Some(StatePayload::Cancelled),
        ) {
            Ok(_) => Ok(true),
            Err(e) => Err(e),
        },
        ActionState::Running => Ok(false),
        _ => Err(ErrorKind::ActionInvalidTransition(id)),
    }
}

/// A record re-claimed by the recovery sweep, to be polled again through its handle.
#[derive(Clone, Debug, PartialEq, Eq)]
pub struct Resumed {
    pub id: u128,
    pub version: u64,
    pub handle: String,
}

/// What the sweep does with a Running record whose lease expired: an external
/// action is resumed through its recorded handle; in-process progress cannot
/// be trusted across a restart, so any other record is failed.
pub open spec fn resumable(r: ActionRecord) -> bool {
    r.state_payload matches Some(StatePayload::Handle(_))
}

/// What the recovery sweep made of one entry. A Running entry whose lease
/// ran out by `now` is re-claimed until `until` and reported in `resumed` if
/// it has a handle, and is failed as abandoned otherwise; any other entry (and
/// one whose versions are exhausted) is left as it was.
pub open spec fn swept(
    before: StoredAction,
    after: StoredAction,
    now: i64,
    until: i64,
    resumed: Seq<Resumed>,
) -> bool {
    if before.record.state == ActionState::Running && before.lease_until <= now && before.version
        < u64::MAX {
        if resumable(before.record) {
            &&& after == leased(before, until)
            &&& exists|j: int| 0 <= j < resumed.len() && #[trigger] resumed[j].id == before.record.id
        } else {
            after == moved(before, ActionState::Failed, Some(StatePayload::Abandoned))
        }
    } else {
        after == before
    }
}

/// Startup recovery: goes through the Running records whose lease ran out by
/// `now`. Those with a recorded handle are re-claimed for `lease_ms` and
/// returned, to be polled again; in-process progress cannot be trusted across
/// a restart, so the others are failed as abandoned.
pub fn recover(store: &mut ActionStore, now: i64, lease_ms: u32) -> (r: Vec<Resumed>)
    requires
        old(store).wf(),
    ensures
        final(store).wf(),
        store_step(old(store).entries(), final(store).entries()),
        final(store).entries().len() == old(store).entries().len(),
        forall|k: int|
            0 <= k < old(store).entries().len() ==> swept(
                #[trigger] old(store).entries()[k],
                final(store).entries()[k],
                now,
                deadline(now, lease_ms),
                r@,
            ),
        forall|k: int|
            0 <= k < r@.len() ==> {
                let s = final(store).entries();
                &&& has_id(s, #[trigger] r@[k].id)
                &&& s[position(s, r@[k].id)].record.state == ActionState::Running
                &&& s[position(s, r@[k].id)].version == r@[k].version
                &&& s[position(s, r@[k].id)].record.state_payload == Some(
                    StatePayload::Handle(r@[k].handle),
                )
            },
{
    let until = lease_deadline(now, lease_ms);
    let mut out: Vec<Resumed> = Vec::new();
    let n = store.len();
    let mut i: usize = 0;
    proof {
        crate::store::lemma_store_step_refl(old(store).entries());
    }
    while i < n
        invariant
            store.wf(),
            store_step(old(store).entries(), store.entries()),
            n == old(store).entries().len(),
            store.entries().len() == n,
            until == deadline(now, lease_ms),
            i <= n,
            forall|k: int| i <= k < n ==> store.entries()[k] == old(store).entries()[k],
            forall|k: int|
                0 <= k < i ==> swept(
                    #[trigger] old(store).entries()[k],
                    store.entries()[k],
                    now,
                    until,
                    out@,
                ),
            forall|k: int|
                0 <= k < out@.len() ==> {
                    let s = store.entries();
                    &&& has_id(s, #[trigger] out@[k].id)
                    &&& exists|j: int| 0 <= j < i && s[j].record.id == out@[k].id
                    &&& s[position(s, out@[k].id)].record.state == ActionState::Running
                    &&& s[position(s, out@[k].id)].version == out@[k].version
                    &&& s[position(s, out@[k].id)].record.state_payload == Some(
                        StatePayload::Handle(out@[k].handle),
                    )
                },
        decreases n - i,
    {
        let ghost before = store.entries();
        let ghost out_before = out@;
        proof {
            store.lemma_wf_unique();
        }
        let e = store.entry(i);
        let id = e.record.id;
        let version = e.version;
        if e.record.state == ActionState::Running && e.lease_until <= now {
            let handle = match &e.record.state_payload {
                Some(StatePayload::Handle(h)) => Some(h.clone()),
                _ => None,
            };
            proof {
                crate::store::lemma_position(before, id, i as int);
            }
            match handle {
                Some(h) => {
                    match store.acquire_lease(id, version, now, until) {
                        Ok(v) => {
                            proof {
                                store.lemma_wf_unique();
                                assert(store.entries()[i as int].record.id == id);
                                crate::store::lemma_position(store.entries(), id, i as int);
                                assert forall|k: int| 0 <= k < out@.len() implies #[trigger] out@[k].id != id by {
                                    let j = choose|j: int| 0 <= j < i && before[j].record.id == out@[k].id;
                                    assert(before[j].record.id != before[i as int].record.id);
                                }
                                assert forall|k: int| 0 <= k < out@.len() implies position(store.entries(), #[trigger] out@[k].id) == position(before, out@[k].id) by {
                                    let p = position(before, out@[k].id);
                                    assert(store.entries()[p].record.id == out@[k].id);
                                    crate::store::lemma_position(store.entries(), out@[k].id, p);
                                }
                            }
                            out.push(Resumed { id, version: v, handle: h });
                            proof {
                                assert(store.entries()[i as int].record.id == id);
                                assert(out@[out@.len() - 1].id == id);
                                assert forall|k: int| 0 <= k < i implies swept(
                                    #[trigger] old(store).entries()[k],
                                    store.entries()[k],
                                    now,
                                    until,
                                    out@,
                                ) by {
                                    assert(swept(old(store).entries()[k], before[k], now, until, out_before));
                                    if old(store).entries()[k].record.state == ActionState::Running
                                        && old(store).entries()[k].lease_until <= now
                                        && old(store).entries()[k].version < u64::MAX
                                        && resumable(old(store).entries()[k].record) {
                                        let j = choose|j: int| 0 <= j < out_before.len() && #[trigger] out_before[j].id == old(store).entries()[k].record.id;
                                        assert(out@[j] == out_before[j]);
                                    }
                                }
                            }
                        },
                        Err(_) => {},
                    }
                },
                None => {
                    match store.transition(
                        id,
                        version,
                        ActionState::Failed,
                        Some(StatePayload::Abandoned),
                    ) {
                        Ok(_) => {
                            proof {
                                store.lemma_wf_unique();
                                assert forall|k: int| 0 <= k < out@.len() implies #[trigger] out@[k].id != id by {
                                    let j = choose|j: int| 0 <= j < i && before[j].record.id == out@[k].id;
                                    assert(before[j].record.id != before[i as int].record.id);
                                }
                                assert forall|k: int| 0 <= k < out@.len() implies position(store.entries(), #[trigger] out@[k].id) == position(before, out@[k].id) by {
                                    let p = position(before, out@[k].id);
                                    assert(store.entries()[p].record.id == out@[k].id);
                                    crate::store::lemma_position(store.entries(), out@[k].id, p);
                                }
                            }
                        },
                        Err(_) => {},
                    }
                },
            }
        }
        proof {
            crate::store::lemma_store_step_trans(old(store).entries(), before, store.entries());
            assert forall|k: int| 0 <= k < out@.len() implies exists|j: int| 0 <= j < i + 1 && store.entries()[j].record.id == #[trigger] out@[k].id by {
                if k == out@.len() - 1 && out@[k].id == id {
                    assert(store.entries()[i as int].record.id == id);
                } else {
                    let j = choose|j: int| 0 <= j < i && before[j].record.id == out@[k].id;
                    assert(store.entries()[j].record.id == before[j].record.id);
                }
            }
        }
        i = i + 1;
    }
    out
}

} // verus!
