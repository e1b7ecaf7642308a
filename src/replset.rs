//! Replica-set status of a MongoDB node, as the monitoring side reads it:
//! the node's own member, the primary, and the node's role and lag.
use vstd::prelude::*;

use crate::error::ErrorKind;

verus! {

/// Section of the buildInfo command that the agent cares about.
#[derive(Clone, Debug, PartialEq, Eq)]
pub struct BuildInfo {
    pub version: String,
}

/// A replication timestamp: seconds since the epoch and an ordinal within the second.
#[derive(Clone, Copy, Debug, PartialEq, Eq, Hash, Structural)]
pub struct Timestamp {
    pub t: u32,
    pub i: u32,
}

/// Section of the replSetGetStatus optime information that the agent cares about.
#[derive(Clone, Copy, Debug, PartialEq, Eq, Hash, Structural)]
pub struct RepliSetOptime {
    pub ts: Timestamp,
}

/// Section of a replSetGetStatus member that the agent cares about.
#[derive(Clone, Debug, PartialEq, Eq)]
pub struct ReplSetStatusMember {
    /// The member is the node that answered.
    pub is_self: bool,
    pub name: String,
    pub optime: RepliSetOptime,
    pub state: i32,
}

impl ReplSetStatusMember {
    /// Members are not the answering node unless they say so.
    pub fn default_self() -> (r: bool)
        ensures
            !r,
    {
        false
    }
}

/// Section of the replSetGetStatus command that the agent cares about.
#[derive(Clone, Debug, PartialEq, Eq)]
pub struct ReplSetStatus {
    pub members: Vec<ReplSetStatusMember>,
    pub my_state: i32,
    pub set: String,
}

/// Role of a node in its shard.
#[derive(Clone, Debug, PartialEq, Eq)]
pub enum ShardRole {
    Primary,
    Secondary,
    Unknown(String),
}

/// Status of one shard on the node.
#[derive(Clone, Debug, PartialEq, Eq)]
pub struct Shard {
    /// Name of the shard (the replica set).
    pub id: String,
    pub role: ShardRole,
    /// Time of the node's latest operation, in seconds.
    pub commit_offset: Option<i64>,
    /// How many seconds the node is behind the primary.
    pub lag: Option<i64>,
}

/// Information about the datastore a node belongs to.
#[derive(Clone, Debug, PartialEq, Eq)]
pub struct DatastoreInfo {
    /// Name of the cluster shown to users, when it differs from its id.
    pub cluster_display_name: Option<String>,
    pub cluster_id: String,
    pub kind: String,
    pub node_id: String,
    pub version: String,
}

impl DatastoreInfo {
    /// Replaces the display name with `display_name` when one is configured.
    pub fn with_display_name_override(self, display_name: Option<String>) -> (r: DatastoreInfo)
        ensures
            r.cluster_display_name == match display_name {
                Some(d) => Some(d),
                None => self.cluster_display_name,
            },
            r.cluster_id == self.cluster_id,
            r.kind == self.kind,
            r.node_id == self.node_id,
            r.version == self.version,
    {
        let cluster_display_name = match display_name {
            Some(d) => Some(d),
            None => self.cluster_display_name,
        };
        DatastoreInfo { cluster_display_name, ..self }
    }
}

/// The state number of a primary member.
pub const PRIMARY_STATE: i32 = 1;

/// Index of the first member, from `k` on, with `is_self` set; -1 if none.
pub open spec fn first_self_from(ms: Seq<ReplSetStatusMember>, k: int) -> int
    decreases ms.len() - k,
{
    if k < 0 || k >= ms.len() {
        -1
    } else if ms[k].is_self {
        k
    } else {
        first_self_from(ms, k + 1)
    }
}

/// Index of the first member, from `k` on, in the primary state; -1 if none.
pub open spec fn first_primary_from(ms: Seq<ReplSetStatusMember>, k: int) -> int
    decreases ms.len() - k,
{
    if k < 0 || k >= ms.len() {
        -1
    } else if ms[k].state == PRIMARY_STATE {
        k
    } else {
        first_primary_from(ms, k + 1)
    }
}

/// Name of the role for node states that are neither primary nor secondary
/// but known; `None` for states that are not known at all.
pub open spec fn unknown_role_name(state: i32) -> Option<Seq<char>> {
    if state == 0 {
        Some("STARTUP"@)
    } else if state == 3 {
        Some("RECOVERING"@)
    } else if state == 5 {
        Some("STARTUP2"@)
    } else if state == 6 {
        Some("UNKNOWN"@)
    } else if state == 7 {
        Some("ARBITER"@)
    } else if state == 8 {
        Some("DOWN"@)
    } else if state == 9 {
        Some("ROLLBACK"@)
    } else if state == 10 {
        Some("REMOVED"@)
    } else {
        None
    }
}

/// The role is the one a node state number stands for: 1 primary, 2
/// secondary, the other known states by name.
pub open spec fn is_role_of(state: i32, role: ShardRole) -> bool {
    if state == 1 {
        role == ShardRole::Primary
    } else if state == 2 {
        role == ShardRole::Secondary
    } else {
        match (unknown_role_name(state), role) {
            (Some(n), ShardRole::Unknown(s)) => s@ == n,
            _ => false,
        }
    }
}

/// A node state number is one the agent knows.
pub open spec fn known_state(state: i32) -> bool {
    state == 1 || state == 2 || unknown_role_name(state) is Some
}

/// The role a node state number stands for, if it is a known one.
pub fn role_of(state: i32) -> (r: Option<ShardRole>)
    ensures
        r is Some <==> known_state(state),
        r is Some ==> is_role_of(state, r->Some_0),
{
    match state {
        0 => Some(ShardRole::Unknown("STARTUP".to_owned())),
        1 => Some(ShardRole::Primary),
        2 => Some(ShardRole::Secondary),
        3 => Some(ShardRole::Unknown("RECOVERING".to_owned())),
        5 => Some(ShardRole::Unknown("STARTUP2".to_owned())),
        6 => Some(ShardRole::Unknown("UNKNOWN".to_owned())),
        7 => Some(ShardRole::Unknown("ARBITER".to_owned())),
        8 => Some(ShardRole::Unknown("DOWN".to_owned())),
        9 => Some(ShardRole::Unknown("ROLLBACK".to_owned())),
        10 => Some(ShardRole::Unknown("REMOVED".to_owned())),
        _ => None,
    }
}

/// The decimal digit for `d` (below ten).
pub open spec fn digit_char(d: nat) -> char {
    "0123456789"@[d as int]
}

/// The decimal digits of a number, most significant first.
pub open spec fn decimal_digits(n: nat) -> Seq<char>
    decreases n,
{
    if n < 10 {
        seq![digit_char(n)]
    } else {
        decimal_digits(n / 10).push(digit_char(n % 10))
    }
}

/// A number written in decimal, as `Display` writes integers.
pub open spec fn decimal(n: int) -> Seq<char> {
    if n < 0 {
        seq!['-'] + decimal_digits((-n) as nat)
    } else {
        decimal_digits(n as nat)
    }
}

fn digit_text(d: u64) -> (r: String)
    requires
        d < 10,
    ensures
        r@ == seq![digit_char(d as nat)],
{
    proof {
        reveal_strlit("0123456789");
    }
    let r = "0123456789".substring_char(d as usize, d as usize + 1).to_owned();
    assert(r@ =~= seq![digit_char(d as nat)]);
    r
}

fn digits_text(n: u64) -> (r: String)
    ensures
        r@ == decimal_digits(n as nat),
    decreases n,
{
    if n < 10 {
        digit_text(n)
    } else {
        let mut s = digits_text(n / 10);
        let last = digit_text(n % 10);
        s.append(last.as_str());
        s
    }
}

/// A number written in decimal.
pub fn decimal_text(n: i32) -> (r: String)
    ensures
        r@ == decimal(n as int),
{
    if n < 0 {
        let m = (-(n as i64)) as u64;
        let digits = digits_text(m);
        proof {
            reveal_strlit("-");
            assert("-"@ =~= seq!['-']);
        }
        "-".to_owned().concat(digits.as_str())
    } else {
        digits_text(n as u64)
    }
}

/// Index of the node's own member: the first one with `is_self` set.
pub fn self_member(members: &Vec<ReplSetStatusMember>) -> (r: Option<usize>)
    ensures
        r is None <==> first_self_from(members@, 0) == -1,
        r is Some ==> r->Some_0 as int == first_self_from(members@, 0),
        first_self_from(members@, 0) == -1 || (0 <= first_self_from(members@, 0) < members@.len()),
{
    let mut i: usize = 0;
    while i < members.len()
        invariant
            i <= members@.len(),
            first_self_from(members@, 0) == first_self_from(members@, i as int),
        decreases members@.len() - i,
    {
        if members[i].is_self {
            return Some(i);
        }
        i = i + 1;
    }
    None
}

/// Index of the first member in the primary state.
pub fn primary_member(members: &Vec<ReplSetStatusMember>) -> (r: Option<usize>)
    ensures
        r is None <==> first_primary_from(members@, 0) == -1,
        r is Some ==> r->Some_0 as int == first_primary_from(members@, 0),
        first_primary_from(members@, 0) == -1 || (0 <= first_primary_from(members@, 0)
            < members@.len()),
{
    let mut i: usize = 0;
    while i < members.len()
        invariant
            i <= members@.len(),
            first_primary_from(members@, 0) == first_primary_from(members@, i as int),
        decreases members@.len() - i,
    {
        if members[i].state == PRIMARY_STATE {
            return Some(i);
        }
        i = i + 1;
    }
    None
}

/// What the status reports as the node's own member, if any.
pub open spec fn own_member(s: ReplSetStatus) -> Option<ReplSetStatusMember> {
    let k = first_self_from(s.members@, 0);
    if k == -1 {
        None
    } else {
        Some(s.members@[k])
    }
}

/// What the status reports as the primary member, if any.
pub open spec fn primary_of(s: ReplSetStatus) -> Option<ReplSetStatusMember> {
    let k = first_primary_from(s.members@, 0);
    if k == -1 {
        None
    } else {
        Some(s.members@[k])
    }
}

impl ReplSetStatus {
    /// The timestamp (in seconds) of the node's latest operation: the optime
    /// of its own member.
    pub fn last_op(&self) -> (r: Result<i64, ErrorKind>)
        ensures
            match own_member(*self) {
                Some(m) => r == Ok::<i64, ErrorKind>(m.optime.ts.t as i64),
                None => r is Err && r->Err_0 is InvalidStoreState
                    && r->Err_0->InvalidStoreState_0@ == "self not in members list"@,
            },
    {
        match self_member(&self.members) {
            Some(i) => Ok(self.members[i].optime.ts.t as i64),
            None => Err(ErrorKind::InvalidStoreState("self not in members list".to_owned())),
        }
    }

    /// The node's name: the name of its own member.
    pub fn node_name(&self) -> (r: Result<String, ErrorKind>)
        ensures
            match own_member(*self) {
                Some(m) => r is Ok && r->Ok_0 == m.name,
                None => r is Err && r->Err_0 is InvalidStoreState
                    && r->Err_0->InvalidStoreState_0@ == "self not in members list"@,
            },
    {
        match self_member(&self.members) {
            Some(i) => Ok(self.members[i].name.clone()),
            None => Err(ErrorKind::InvalidStoreState("self not in members list".to_owned())),
        }
    }

    /// The optime (in seconds) of the primary.
    pub fn primary_optime(&self) -> (r: Result<i64, ErrorKind>)
        ensures
            match primary_of(*self) {
                Some(m) => r == Ok::<i64, ErrorKind>(m.optime.ts.t as i64),
                None => r is Err && r->Err_0 is InvalidStoreState
                    && r->Err_0->InvalidStoreState_0@ == "primary node not in members list"@,
            },
    {
        match primary_member(&self.members) {
            Some(i) => Ok(self.members[i].optime.ts.t as i64),
            None => Err(
                ErrorKind::InvalidStoreState("primary node not in members list".to_owned()),
            ),
        }
    }

    /// The node's role in the replica set, from its state number. An unknown
    /// state number is an invalid store state naming the number.
    pub fn role(&self) -> (r: Result<ShardRole, ErrorKind>)
        ensures
            r is Ok <==> known_state(self.my_state),
            r is Ok ==> is_role_of(self.my_state, r->Ok_0),
            r is Err ==> r->Err_0 is InvalidStoreState && r->Err_0->InvalidStoreState_0@
                == "unsupported node state "@ + decimal(self.my_state as int),
    {
        match role_of(self.my_state) {
            Some(role) => Ok(role),
            None => {
                let number = decimal_text(self.my_state);
                let message = "unsupported node state ".to_owned().concat(number.as_str());
                Err(ErrorKind::InvalidStoreState(message))
            },
        }
    }
}

/// The datastore information of a MongoDB node: its replica set is the
/// cluster, its own member's name is the node, and the version is the one the
/// build information reports.
pub fn datastore_info(build: &BuildInfo, status: &ReplSetStatus) -> (r: Result<
    DatastoreInfo,
    ErrorKind,
>)
    ensures
        r is Ok <==> own_member(*status) is Some,
        r is Err ==> r->Err_0 is InvalidStoreState && r->Err_0->InvalidStoreState_0@
            == "self not in members list"@,
        r is Ok ==> {
            &&& r->Ok_0.cluster_display_name is None
            &&& r->Ok_0.cluster_id == status.set
            &&& r->Ok_0.kind@ == "MongoDB"@
            &&& r->Ok_0.node_id == own_member(*status)->Some_0.name
            &&& r->Ok_0.version == build.version
        },
{
    let node_id = match status.node_name() {
        Ok(name) => name,
        Err(e) => return Err(e),
    };
    Ok(
        DatastoreInfo {
            cluster_display_name: None,
            cluster_id: status.set.clone(),
            kind: "MongoDB".to_owned(),
            node_id,
            version: build.version.clone(),
        },
    )
}

/// The lag of a non-primary node: how far its latest operation is behind the
/// primary's, when there is a primary.
pub open spec fn lag_spec(s: ReplSetStatus, role: ShardRole, last_op: i64) -> Option<i64> {
    if role == ShardRole::Primary {
        None
    } else {
        match primary_of(s) {
            Some(p) => Some((p.optime.ts.t - last_op) as i64),
            None => None,
        }
    }
}

/// The shard that the node serves, as the status reports it: named after the
/// replica set, with the node's role, the time of its latest operation as
/// commit offset, and its lag behind the primary (none for a primary, and
/// none when no primary is known).
pub fn shard_from_status(status: &ReplSetStatus) -> (r: Result<Shard, ErrorKind>)
    ensures
        r is Ok <==> own_member(*status) is Some && known_state(status.my_state),
        r is Ok ==> {
            let last = own_member(*status)->Some_0.optime.ts.t as i64;
            &&& r->Ok_0.id == status.set
            &&& is_role_of(status.my_state, r->Ok_0.role)
            &&& r->Ok_0.commit_offset == Some(last)
            &&& r->Ok_0.lag == lag_spec(*status, r->Ok_0.role, last)
        },
{
    let last_op = match status.last_op() {
        Ok(t) => t,
        Err(e) => return Err(e),
    };
    let role = match status.role() {
        Ok(role) => role,
        Err(e) => return Err(e),
    };
    let lag = match role {
        ShardRole::Primary => None,
        _ => match status.primary_optime() {
            Ok(head) => Some(head - last_op),
            Err(_) => None,
        },
    };
    Ok(Shard { id: status.set.clone(), role, commit_offset: Some(last_op), lag })
}

} // verus!
