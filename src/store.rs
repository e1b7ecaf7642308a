//! The store of action records, kept in memory: creation, lookup, listing in
//! creation order and compare-and-swap updates that only ever move a record
//! forward.
use vstd::prelude::*;

use crate::actions::{
    finished, item_of, same_record, stage, ActionListItem, ActionRecord, ActionState,
    StatePayload,
};
use crate::error::ErrorKind;

verus! {

/// A record as kept by the store, with its creation sequence number, its
/// compare-and-swap version and the time its current lease runs out.
#[derive(Debug)]
pub struct StoredAction {
    pub record: ActionRecord,
    pub seq: u64,
    pub version: u64,
    pub lease_until: i64,
}

/// Ids are unique, sequence numbers and creation times grow along the entries.
pub open spec fn entries_wf(s: Seq<StoredAction>, next_seq: u64, last_ts: i64) -> bool {
    &&& forall|i: int, j: int|
        0 <= i < j < s.len() ==> s[i].record.id != s[j].record.id
    &&& forall|i: int, j: int| 0 <= i < j < s.len() ==> s[i].seq < s[j].seq
    &&& forall|i: int, j: int|
        0 <= i < j < s.len() ==> s[i].record.created_ts <= s[j].record.created_ts
    &&& forall|i: int| 0 <= i < s.len() ==> s[i].seq < next_seq
    &&& forall|i: int| 0 <= i < s.len() ==> s[i].record.created_ts <= last_ts
}

/// Ids are unique along the entries.
pub open spec fn unique_ids(s: Seq<StoredAction>) -> bool {
    forall|i: int, j: int| 0 <= i < j < s.len() ==> s[i].record.id != s[j].record.id
}

/// Some entry holds the id.
pub open spec fn has_id(s: Seq<StoredAction>, id: u128) -> bool {
    exists|i: int| 0 <= i < s.len() && s[i].record.id == id
}

/// The index of the entry that holds the id, or -1.
pub open spec fn position(s: Seq<StoredAction>, id: u128) -> int {
    if has_id(s, id) {
        choose|i: int| 0 <= i < s.len() && s[i].record.id == id
    } else {
        -1
    }
}

/// The list entries for a sequence of stored records, in the same order.
pub open spec fn items_of(s: Seq<StoredAction>) -> Seq<ActionListItem> {
    s.map_values(|e: StoredAction| item_of(e.record))
}

/// What `create` stores: the record, stamped no earlier than anything stored before.
pub open spec fn created_entry(r: ActionRecord, seq: u64, last_ts: i64) -> StoredAction {
    StoredAction {
        record: ActionRecord {
            created_ts: if r.created_ts < last_ts { last_ts } else { r.created_ts },
            ..r
        },
        seq,
        version: 0,
        lease_until: i64::MIN,
    }
}

/// The lease of an entry can be taken at `now`: it is New, or Running with an expired lease.
pub open spec fn lease_available(e: StoredAction, now: i64) -> bool {
    e.record.state == ActionState::New || (e.record.state == ActionState::Running
        && e.lease_until <= now)
}

/// A lease acquisition on `id` expecting `version` succeeds at `now`.
pub open spec fn acquire_succeeds(s: Seq<StoredAction>, id: u128, version: u64, now: i64) -> bool {
    &&& has_id(s, id)
    &&& s[position(s, id)].version == version
    &&& version < u64::MAX
    &&& lease_available(s[position(s, id)], now)
}

/// The entry after its lease was taken until `until`.
pub open spec fn leased(e: StoredAction, until: i64) -> StoredAction {
    StoredAction {
        record: ActionRecord { state: ActionState::Running, ..e.record },
        version: (e.version + 1) as u64,
        lease_until: until,
        ..e
    }
}

/// The entries after a successful lease acquisition.
pub open spec fn acquired(s: Seq<StoredAction>, id: u128, until: i64) -> Seq<StoredAction> {
    s.update(position(s, id), leased(s[position(s, id)], until))
}

/// A transition of `id` to `next`, expecting `version`, succeeds.
pub open spec fn transition_succeeds(
    s: Seq<StoredAction>,
    id: u128,
    version: u64,
    next: ActionState,
) -> bool {
    &&& has_id(s, id)
    &&& s[position(s, id)].version == version
    &&& version < u64::MAX
    &&& stage(next) > stage(s[position(s, id)].record.state)
}

/// The entry moved to state `next` with `payload`.
pub open spec fn moved(e: StoredAction, next: ActionState, payload: Option<StatePayload>) -> StoredAction {
    StoredAction {
        record: ActionRecord { state: next, state_payload: payload, ..e.record },
        version: (e.version + 1) as u64,
        ..e
    }
}

/// A payload update of `id`, expecting `version`, succeeds: the record is Running.
pub open spec fn progress_succeeds(s: Seq<StoredAction>, id: u128, version: u64) -> bool {
    &&& has_id(s, id)
    &&& s[position(s, id)].version == version
    &&& version < u64::MAX
    &&& s[position(s, id)].record.state == ActionState::Running
}

/// One change of the store keeps every entry where it was, with the same
/// identity and arguments, and moves each state only as the lifecycle allows.
pub open spec fn store_step(a: Seq<StoredAction>, b: Seq<StoredAction>) -> bool {
    &&& a.len() <= b.len()
    &&& forall|i: int|
        0 <= i < a.len() ==> {
            &&& #[trigger] b[i].record.id == a[i].record.id
            &&& b[i].record.args == a[i].record.args
            &&& b[i].record.action == a[i].record.action
            &&& b[i].seq == a[i].seq
            &&& crate::actions::step_allowed(a[i].record.state, b[i].record.state)
        }
}

/// Store changes compose: two steps in a row make one step.
pub proof fn lemma_store_step_trans(a: Seq<StoredAction>, b: Seq<StoredAction>, c: Seq<StoredAction>)
    requires
        store_step(a, b),
        store_step(b, c),
    ensures
        store_step(a, c),
{
    assert forall|i: int| 0 <= i < a.len() implies {
        &&& #[trigger] c[i].record.id == a[i].record.id
        &&& c[i].record.args == a[i].record.args
        &&& c[i].record.action == a[i].record.action
        &&& c[i].seq == a[i].seq
        &&& crate::actions::step_allowed(a[i].record.state, c[i].record.state)
    } by {
        assert(b[i].record.id == a[i].record.id);
        assert(c[i].record.id == b[i].record.id);
    }
}

/// Leaving the store as it is is a step.
pub proof fn lemma_store_step_refl(a: Seq<StoredAction>)
    ensures
        store_step(a, a),
{
}

/// Where the entry at index `i` of `s` holds `id`, `i` is its position.
pub proof fn lemma_position(s: Seq<StoredAction>, id: u128, i: int)
    requires
        unique_ids(s),
        0 <= i < s.len(),
        s[i].record.id == id,
    ensures
        has_id(s, id),
        position(s, id) == i,
{
    assert(has_id(s, id));
    let j = position(s, id);
    if j != i {
        if j < i {
            assert(s[j].record.id != s[i].record.id);
        } else {
            assert(s[i].record.id != s[j].record.id);
        }
    }
}

/// In-memory storage of action records; each operation is atomic.
pub struct ActionStore {
    entries: Vec<StoredAction>,
    next_seq: u64,
    last_ts: i64,
}

impl ActionStore {
    /// The stored entries, in creation order.
    pub closed spec fn entries(&self) -> Seq<StoredAction> {
        self.entries@
    }

    /// The sequence number the next created record receives.
    pub closed spec fn next_seq(&self) -> u64 {
        self.next_seq
    }

    /// The latest creation time stored so far.
    pub closed spec fn last_ts(&self) -> i64 {
        self.last_ts
    }

    /// The store's invariant.
    pub closed spec fn wf(&self) -> bool {
        entries_wf(self.entries@, self.next_seq, self.last_ts)
    }

    /// What the invariant says of the entries.
    pub proof fn lemma_wf(&self)
        requires
            self.wf(),
        ensures
            entries_wf(self.entries(), self.next_seq(), self.last_ts()),
    {
    }

    /// Uniqueness of ids follows from the invariant.
    pub proof fn lemma_wf_unique(&self)
        requires
            self.wf(),
        ensures
            unique_ids(self.entries()),
    {
    }

    /// An empty store.
    pub fn new() -> (r: ActionStore)
        ensures
            r.wf(),
            r.entries() == Seq::<StoredAction>::empty(),
            r.next_seq() == 0,
            r.last_ts() == i64::MIN,
    {
        ActionStore { entries: Vec::new(), next_seq: 0, last_ts: i64::MIN }
    }

    /// Number of stored records.
    pub fn len(&self) -> (r: usize)
        ensures
            r == self.entries().len(),
    {
        self.entries.len()
    }

    /// The entry at index `i`, in creation order.
    pub fn entry(&self, i: usize) -> (r: &StoredAction)
        requires
            i < self.entries().len(),
        ensures
            *r == self.entries()[i as int],
    {
        &self.entries[i]
    }

    /// Index of the entry holding `id`, if any.
    fn find(&self, id: u128) -> (r: Option<usize>)
        requires
            self.wf(),
        ensures
            r.is_none() <==> !has_id(self.entries(), id),
            r.is_some() ==> r.unwrap() == position(self.entries(), id),
            r.is_some() ==> r.unwrap() < self.entries().len(),
    {
        let mut i: usize = 0;
        while i < self.entries.len()
            invariant
                self.wf(),
                i <= self.entries@.len(),
                forall|k: int| 0 <= k < i ==> self.entries@[k].record.id != id,
            decreases self.entries@.len() - i,
        {
            if self.entries[i].record.id == id {
                proof {
                    lemma_position(self.entries@, id, i as int);
                }
                return Some(i);
            }
            i = i + 1;
        }
        None
    }

    /// Stores a new record, after every record stored before it.
    ///
    /// Fails with `ActionAlreadyExists` when a record with the same id is
    /// stored, and with `PersistentWrite` when sequence numbers are exhausted.
    /// The stored creation time is the record's, raised to the latest one stored
    /// so far, so that creation times never decrease along the list.
    pub fn create(&mut self, record: ActionRecord) -> (r: Result<u64, ErrorKind>)
        requires
            old(self).wf(),
        ensures
            final(self).wf(),
            store_step(old(self).entries(), final(self).entries()),
            has_id(old(self).entries(), record.id) ==> r == Err::<u64, ErrorKind>(
                ErrorKind::ActionAlreadyExists(record.id),
            ),
            !has_id(old(self).entries(), record.id) && old(self).next_seq() == u64::MAX ==> r
                is Err && r->Err_0 is PersistentWrite,
            r is Err ==> final(self).entries() == old(self).entries(),
            r is Ok <==> !has_id(old(self).entries(), record.id) && old(self).next_seq()
                < u64::MAX,
            r is Ok ==> {
                &&& r->Ok_0 == old(self).next_seq()
                &&& final(self).entries() == old(self).entries().push(
                    created_entry(record, old(self).next_seq(), old(self).last_ts()),
                )
                &&& final(self).next_seq() == old(self).next_seq() + 1
                &&& final(self).last_ts() == created_entry(
                    record,
                    old(self).next_seq(),
                    old(self).last_ts(),
                ).record.created_ts
            },
            r is Err ==> final(self).next_seq() == old(self).next_seq() && final(self).last_ts()
                == old(self).last_ts(),
    {
        if self.find(record.id).is_some() {
            return Err(ErrorKind::ActionAlreadyExists(record.id));
        }
        if self.next_seq == u64::MAX {
            return Err(ErrorKind::PersistentWrite("action".to_owned()));
        }
        let seq = self.next_seq;
        let mut record = record;
        if record.created_ts < self.last_ts {
            record.created_ts = self.last_ts;
        }
        let ts = record.created_ts;
        let entry = StoredAction { record, seq, version: 0, lease_until: i64::MIN };
        self.entries.push(entry);
        self.next_seq = seq + 1;
        self.last_ts = ts;
        Ok(seq)
    }

    /// A copy of the record stored under `id`; `ActionNotFound` if there is none.
    pub fn read(&self, id: u128) -> (r: Result<ActionRecord, ErrorKind>)
        requires
            self.wf(),
        ensures
            r is Ok <==> has_id(self.entries(), id),
            r is Ok ==> same_record(r->Ok_0, self.entries()[position(self.entries(), id)].record),
            r is Err ==> r == Err::<ActionRecord, ErrorKind>(ErrorKind::ActionNotFound(id)),
    {
        match self.find(id) {
            Some(i) => Ok(self.entries[i].record.duplicate()),
            None => Err(ErrorKind::ActionNotFound(id)),
        }
    }

    /// The compare-and-swap version of the record stored under `id`.
    pub fn version_of(&self, id: u128) -> (r: Option<u64>)
        requires
            self.wf(),
        ensures
            r is Some <==> has_id(self.entries(), id),
            r is Some ==> r->Some_0 == self.entries()[position(self.entries(), id)].version,
    {
        match self.find(id) {
            Some(i) => Some(self.entries[i].version),
            None => None,
        }
    }

    /// Every record, summarised, in creation order (which is also
    /// non-decreasing creation time).
    pub fn list(&self) -> (r: Vec<ActionListItem>)
        ensures
            r@ == items_of(self.entries()),
    {
        let mut out: Vec<ActionListItem> = Vec::new();
        let mut i: usize = 0;
        while i < self.entries.len()
            invariant
                i <= self.entries@.len(),
                out@ == items_of(self.entries@.subrange(0, i as int)),
            decreases self.entries@.len() - i,
        {
            out.push(self.entries[i].record.list_item());
            proof {
                assert(self.entries@.subrange(0, i + 1) =~= self.entries@.subrange(
                    0,
                    i as int,
                ).push(self.entries@[i as int]));
                assert(items_of(self.entries@.subrange(0, i + 1)) =~= items_of(
                    self.entries@.subrange(0, i as int),
                ).push(item_of(self.entries@[i as int].record)));
            }
            i = i + 1;
        }
        assert(self.entries@.subrange(0, i as int) =~= self.entries@);
        out
    }

    /// The records created from sequence number `from_seq` on, summarised with
    /// their sequence numbers, in creation order. A reader resumes a listing
    /// after the last sequence number it saw; records created meanwhile come
    /// after every record listed before.
    pub fn list_since(&self, from_seq: u64) -> (r: Vec<(u64, ActionListItem)>)
        ensures
            r@ == self.entries().filter(|e: StoredAction| e.seq >= from_seq).map_values(
                |e: StoredAction| (e.seq, item_of(e.record)),
            ),
    {
        let mut out: Vec<(u64, ActionListItem)> = Vec::new();
        let mut i: usize = 0;
        while i < self.entries.len()
            invariant
                i <= self.entries@.len(),
                out@ == self.entries@.subrange(0, i as int).filter(
                    |e: StoredAction| e.seq >= from_seq,
                ).map_values(|e: StoredAction| (e.seq, item_of(e.record))),
            decreases self.entries@.len() - i,
        {
            let ghost prev = self.entries@.subrange(0, i as int);
            let ghost f = |e: StoredAction| e.seq >= from_seq;
            let ghost g = |e: StoredAction| (e.seq, item_of(e.record));
            proof {
                reveal(Seq::filter);
                assert(self.entries@.subrange(0, i + 1) =~= prev.push(self.entries@[i as int]));
                assert(prev.push(self.entries@[i as int]).drop_last() =~= prev);
            }
            if self.entries[i].seq >= from_seq {
                out.push((self.entries[i].seq, self.entries[i].record.list_item()));
                proof {
                    assert(prev.push(self.entries@[i as int]).filter(f) == prev.filter(f).push(
                        self.entries@[i as int],
                    ));
                    assert(prev.filter(f).push(self.entries@[i as int]).map_values(g) =~= prev.filter(
                        f,
                    ).map_values(g).push(g(self.entries@[i as int])));
                }
            } else {
                proof {
                    assert(prev.push(self.entries@[i as int]).filter(f) == prev.filter(f));
                }
            }
            i = i + 1;
        }
        assert(self.entries@.subrange(0, i as int) =~= self.entries@);
        out
    }

    /// Takes the exclusive lease on `id` until `until`: moves a New record to
    /// Running, or re-claims a Running record whose lease ran out by `now`.
    ///
    /// The swap succeeds only if the stored version is `expected`; the version
    /// then grows by one. On any failure the store is unchanged:
    /// `ActionNotFound`, `ActionConflict` (another version, or a lease still
    /// held), `ActionInvalidTransition` (a finished record), `PersistentWrite`
    /// (versions exhausted).
    pub fn acquire_lease(&mut self, id: u128, expected: u64, now: i64, until: i64) -> (r: Result<
        u64,
        ErrorKind,
    >)
        requires
            old(self).wf(),
        ensures
            final(self).wf(),
            store_step(old(self).entries(), final(self).entries()),
            final(self).next_seq() == old(self).next_seq(),
            final(self).last_ts() == old(self).last_ts(),
            r is Ok <==> acquire_succeeds(old(self).entries(), id, expected, now),
            r is Ok ==> r->Ok_0 == expected + 1 && final(self).entries() == acquired(
                old(self).entries(),
                id,
                until,
            ),
            r is Err ==> final(self).entries() == old(self).entries(),
            !has_id(old(self).entries(), id) ==> r == Err::<u64, ErrorKind>(
                ErrorKind::ActionNotFound(id),
            ),
            has_id(old(self).entries(), id) && old(self).entries()[position(
                old(self).entries(),
                id,
            )].version != expected ==> r == Err::<u64, ErrorKind>(ErrorKind::ActionConflict(id)),
    {
        let i = match self.find(id) {
            Some(i) => i,
            None => return Err(ErrorKind::ActionNotFound(id)),
        };
        let version = self.entries[i].version;
        let state = self.entries[i].record.state;
        if version != expected {
            return Err(ErrorKind::ActionConflict(id));
        }
        if state == ActionState::Done || state == ActionState::Failed {
            return Err(ErrorKind::ActionInvalidTransition(id));
        }
        if state == ActionState::Running && self.entries[i].lease_until > now {
            return Err(ErrorKind::ActionConflict(id));
        }
        if version == u64::MAX {
            return Err(ErrorKind::PersistentWrite("action".to_owned()));
        }
        let ghost before = self.entries@;
        self.entries[i].record.state = ActionState::Running;
        self.entries[i].version = version + 1;
        self.entries[i].lease_until = until;
        proof {
            assert(self.entries@ =~= acquired(before, id, until));
        }
        Ok(version + 1)
    }

    /// Moves `id` to a later state `next` with `payload`, if the stored
    /// version is `expected`; the version then grows by one.
    ///
    /// Rejected, with the store unchanged, when `next` does not strictly advance
    /// the current state (`ActionInvalidTransition`), as well as for a missing
    /// record, a version mismatch or exhausted versions.
    pub fn transition(
        &mut self,
        id: u128,
        expected: u64,
        next: ActionState,
        payload: Option<StatePayload>,
    ) -> (r: Result<u64, ErrorKind>)
        requires
            old(self).wf(),
        ensures
            final(self).wf(),
            store_step(old(self).entries(), final(self).entries()),
            final(self).next_seq() == old(self).next_seq(),
            final(self).last_ts() == old(self).last_ts(),
            r is Ok <==> transition_succeeds(old(self).entries(), id, expected, next),
            r is Ok ==> r->Ok_0 == expected + 1 && final(self).entries() == old(
                self,
            ).entries().update(
                position(old(self).entries(), id),
                moved(old(self).entries()[position(old(self).entries(), id)], next, payload),
            ),
            r is Err ==> final(self).entries() == old(self).entries(),
            !has_id(old(self).entries(), id) ==> r == Err::<u64, ErrorKind>(
                ErrorKind::ActionNotFound(id),
            ),
            has_id(old(self).entries(), id) && old(self).entries()[position(
                old(self).entries(),
                id,
            )].version != expected ==> r == Err::<u64, ErrorKind>(ErrorKind::ActionConflict(id)),
            has_id(old(self).entries(), id) && old(self).entries()[position(
                old(self).entries(),
                id,
            )].version == expected && stage(next) <= stage(
                old(self).entries()[position(old(self).entries(), id)].record.state,
            ) ==> r == Err::<u64, ErrorKind>(ErrorKind::ActionInvalidTransition(id)),
    {
        let i = match self.find(id) {
            Some(i) => i,
            None => return Err(ErrorKind::ActionNotFound(id)),
        };
        let version = self.entries[i].version;
        if version != expected {
            return Err(ErrorKind::ActionConflict(id));
        }
        if stage_of(next) <= stage_of(self.entries[i].record.state) {
            return Err(ErrorKind::ActionInvalidTransition(id));
        }
        if version == u64::MAX {
            return Err(ErrorKind::PersistentWrite("action".to_owned()));
        }
        let ghost before = self.entries@;
        self.entries[i].record.state = next;
        self.entries[i].record.state_payload = payload;
        self.entries[i].version = version + 1;
        proof {
            assert(self.entries@ =~= before.update(i as int, moved(before[i as int], next, payload)));
        }
        Ok(version + 1)
    }

    /// Replaces the payload of a Running record (its progress, or the handle
    /// of an external process), if the stored version is `expected`; the state
    /// stays Running and the version grows by one. The store is unchanged on
    /// failure.
    pub fn record_progress(&mut self, id: u128, expected: u64, payload: Option<StatePayload>) -> (r:
        Result<u64, ErrorKind>)
        requires
            old(self).wf(),
        ensures
            final(self).wf(),
            store_step(old(self).entries(), final(self).entries()),
            final(self).next_seq() == old(self).next_seq(),
            final(self).last_ts() == old(self).last_ts(),
            r is Ok <==> progress_succeeds(old(self).entries(), id, expected),
            r is Ok ==> r->Ok_0 == expected + 1 && final(self).entries() == old(
                self,
            ).entries().update(
                position(old(self).entries(), id),
                moved(
                    old(self).entries()[position(old(self).entries(), id)],
                    ActionState::Running,
                    payload,
                ),
            ),
            r is Err ==> final(self).entries() == old(self).entries(),
    {
        let i = match self.find(id) {
            Some(i) => i,
            None => return Err(ErrorKind::ActionNotFound(id)),
        };
        let version = self.entries[i].version;
        if version != expected {
            return Err(ErrorKind::ActionConflict(id));
        }
        if self.entries[i].record.state != ActionState::Running {
            return Err(ErrorKind::ActionInvalidTransition(id));
        }
        if version == u64::MAX {
            return Err(ErrorKind::PersistentWrite("action".to_owned()));
        }
        let ghost before = self.entries@;
        self.entries[i].record.state_payload = payload;
        self.entries[i].version = version + 1;
        proof {
            assert(self.entries@ =~= before.update(
                i as int,
                moved(before[i as int], ActionState::Running, payload),
            ));
        }
        Ok(version + 1)
    }

    /// Ids of the Running records whose lease ran out by `now`, in creation
    /// order: what a recovery sweep after a restart has to resume or fail.
    pub fn expired_leases(&self, now: i64) -> (r: Vec<u128>)
        ensures
            r@ == self.entries().filter(|e: StoredAction| e.record.state == ActionState::Running
                && e.lease_until <= now).map_values(|e: StoredAction| e.record.id),
    {
        let mut out: Vec<u128> = Vec::new();
        let mut i: usize = 0;
        while i < self.entries.len()
            invariant
                i <= self.entries@.len(),
                out@ == self.entries@.subrange(0, i as int).filter(
                    |e: StoredAction| e.record.state == ActionState::Running && e.lease_until <= now,
                ).map_values(|e: StoredAction| e.record.id),
            decreases self.entries@.len() - i,
        {
            let ghost prev = self.entries@.subrange(0, i as int);
            let ghost f = |e: StoredAction| e.record.state == ActionState::Running && e.lease_until <= now;
            let ghost g = |e: StoredAction| e.record.id;
            proof {
                reveal(Seq::filter);
                assert(self.entries@.subrange(0, i + 1) =~= prev.push(self.entries@[i as int]));
                assert(prev.push(self.entries@[i as int]).drop_last() =~= prev);
            }
            if self.entries[i].record.state == ActionState::Running
                && self.entries[i].lease_until <= now {
                out.push(self.entries[i].record.id);
                proof {
                    assert(prev.push(self.entries@[i as int]).filter(f) == prev.filter(f).push(self.entries@[i as int]));
                    assert(prev.filter(f).push(self.entries@[i as int]).map_values(g) =~= prev.filter(f).map_values(g).push(self.entries@[i as int].record.id));
                }
            } else {
                proof {
                    assert(prev.push(self.entries@[i as int]).filter(f) == prev.filter(f));
                }
            }
            i = i + 1;
        }
        assert(self.entries@.subrange(0, i as int) =~= self.entries@);
        out
    }
}

/// Executable position of a state along the lifecycle.
pub fn stage_of(s: ActionState) -> (r: u8)
    ensures
        r as int == stage(s),
{
    match s {
        ActionState::New => 0,
        ActionState::Running => 1,
        ActionState::Done => 2,
        ActionState::Failed => 2,
    }
}

/// Creating a record and reading it back: the stored record under its id has
/// the same arguments, and a freshly built record is found in state New.
pub proof fn lemma_create_then_read(s: Seq<StoredAction>, r: ActionRecord, seq: u64, last_ts: i64)
    requires
        unique_ids(s),
        !has_id(s, r.id),
    ensures
        ({
            let t = s.push(created_entry(r, seq, last_ts));
            &&& has_id(t, r.id)
            &&& t[position(t, r.id)].record.args == r.args
            &&& t[position(t, r.id)].record.action == r.action
            &&& t[position(t, r.id)].record.state == r.state
            &&& r.state == ActionState::New ==> t[position(t, r.id)].record.state
                == ActionState::New
        }),
{
    let t = s.push(created_entry(r, seq, last_ts));
    assert forall|i: int, j: int| 0 <= i < j < t.len() implies t[i].record.id != t[j].record.id by {
        if j == s.len() {
            if t[i].record.id == r.id {
                assert(s[i].record.id == r.id);
            }
        }
    }
    lemma_position(t, r.id, s.len() as int);
}

/// Of two lease acquisitions on the same record that both expect the same
/// version, at most one succeeds: after the first, the second fails (and a
/// failed acquisition leaves the store unchanged).
pub proof fn lemma_one_lease_winner(
    s: Seq<StoredAction>,
    id: u128,
    expected: u64,
    now1: i64,
    until1: i64,
    now2: i64,
)
    requires
        unique_ids(s),
        acquire_succeeds(s, id, expected, now1),
    ensures
        !acquire_succeeds(acquired(s, id, until1), id, expected, now2),
{
    let p = position(s, id);
    let t = acquired(s, id, until1);
    assert forall|i: int, j: int| 0 <= i < j < t.len() implies t[i].record.id != t[j].record.id by {
        assert(t[i].record.id == s[i].record.id);
        assert(t[j].record.id == s[j].record.id);
    }
    lemma_position(t, id, p);
    assert(t[p].version == expected + 1);
}

/// A created record is listed after every record listed before it, and its
/// stored creation time is no earlier than theirs: the list stays in
/// creation order whatever the interleaving of the creators.
pub proof fn lemma_create_lists_last(
    s: Seq<StoredAction>,
    r: ActionRecord,
    next_seq: u64,
    last_ts: i64,
)
    requires
        entries_wf(s, next_seq, last_ts),
    ensures
        ({
            let e = created_entry(r, next_seq, last_ts);
            &&& items_of(s.push(e)) == items_of(s).push(item_of(e.record))
            &&& forall|i: int| 0 <= i < s.len() ==> s[i].record.created_ts <= e.record.created_ts
            &&& forall|i: int| 0 <= i < s.len() ==> s[i].seq < e.seq
        }),
{
    let e = created_entry(r, next_seq, last_ts);
    assert(items_of(s.push(e)) =~= items_of(s).push(item_of(e.record)));
}

/// One record along a run of store changes, from step `i` to step `j`: it
/// stays at its index, and its stage never goes back once finished.
proof fn lemma_state_monotone(trace: Seq<Seq<StoredAction>>, k: int, i: int, j: int)
    requires
        forall|t: int| 0 <= t < trace.len() - 1 ==> #[trigger] store_step(trace[t], trace[t + 1]),
        0 <= i <= j < trace.len(),
        0 <= k < trace[0].len(),
    ensures
        k < trace[i].len() && k < trace[j].len(),
        trace[j][k].record.id == trace[i][k].record.id,
        stage(trace[i][k].record.state) <= stage(trace[j][k].record.state),
        finished(trace[i][k].record.state) ==> trace[j][k].record.state == trace[i][k].record.state,
    decreases j,
{
    if j > 0 {
        lemma_state_monotone(trace, k, 0, j - 1);
        let t = j - 1;
        assert(store_step(trace[t], trace[t + 1]));
        assert(trace[t + 1][k].record.id == trace[t][k].record.id);
        assert(crate::actions::step_allowed(trace[t][k].record.state, trace[t + 1][k].record.state));
        if i < j {
            lemma_state_monotone(trace, k, i, j - 1);
        }
    }
}

/// Along any run of store changes, the states that one record goes through
/// form a path New, Running, then Done or Failed: stages never go back, a
/// finished record never changes, and no state is left and later revisited.
pub proof fn lemma_states_form_path(trace: Seq<Seq<StoredAction>>, k: int, i: int, j: int)
    requires
        forall|t: int| 0 <= t < trace.len() - 1 ==> #[trigger] store_step(trace[t], trace[t + 1]),
        0 <= i <= j < trace.len(),
        0 <= k < trace[0].len(),
    ensures
        k < trace[i].len() && k < trace[j].len(),
        trace[j][k].record.id == trace[i][k].record.id,
        stage(trace[i][k].record.state) <= stage(trace[j][k].record.state),
        finished(trace[i][k].record.state) ==> trace[j][k].record.state == trace[i][k].record.state,
        trace[i][k].record.state == trace[j][k].record.state ==> forall|m: int|
            i <= m <= j ==> #[trigger] trace[m][k].record.state == trace[i][k].record.state,
{
    lemma_state_monotone(trace, k, i, j);
    if trace[i][k].record.state == trace[j][k].record.state {
        assert forall|m: int| i <= m <= j implies #[trigger] trace[m][k].record.state
            == trace[i][k].record.state by {
            lemma_state_monotone(trace, k, i, m);
            lemma_state_monotone(trace, k, m, j);
        }
    }
}

} // verus!
