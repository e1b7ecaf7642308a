//! Replica-set status as the MongoDB 3.2 backend reports its errors: plain
//! messages rather than invalid-store-state kinds.
use vstd::prelude::*;

use crate::error::ErrorKind;
use crate::replset::{
    first_primary_from, first_self_from, is_role_of, known_state, primary_member, role_of,
    self_member, ReplSetStatusMember, Shard, ShardRole,
};

verus! {

/// Section of the replSetGetStatus command that the 3.2 backend cares about.
#[derive(Clone, Debug, PartialEq, Eq)]
pub struct ReplSetStatus {
    pub members: Vec<ReplSetStatusMember>,
    pub my_state: i32,
    pub set: String,
}

/// The error the 3.2 backend reports: a free-form message.
pub open spec fn message_error(e: ErrorKind, text: Seq<char>) -> bool {
    e is FreeForm && e->FreeForm_0@ == text
}

impl ReplSetStatus {
    /// The timestamp (in seconds) of the node's latest operation.
    pub fn last_op(&self) -> (r: Result<i64, ErrorKind>)
        ensures
            ({
                let k = first_self_from(self.members@, 0);
                if k == -1 {
                    r is Err && message_error(r->Err_0, "Unable to find self in members list"@)
                } else {
                    r == Ok::<i64, ErrorKind>(self.members@[k].optime.ts.t as i64)
                }
            }),
    {
        match self_member(&self.members) {
            Some(i) => Ok(self.members[i].optime.ts.t as i64),
            None => Err(ErrorKind::FreeForm("Unable to find self in members list".to_owned())),
        }
    }

    /// The node's name.
    pub fn node_name(&self) -> (r: Result<String, ErrorKind>)
        ensures
            ({
                let k = first_self_from(self.members@, 0);
                if k == -1 {
                    r is Err && message_error(r->Err_0, "Unable to find self in members list"@)
                } else {
                    r is Ok && r->Ok_0 == self.members@[k].name
                }
            }),
    {
        match self_member(&self.members) {
            Some(i) => Ok(self.members[i].name.clone()),
            None => Err(ErrorKind::FreeForm("Unable to find self in members list".to_owned())),
        }
    }

    /// The optime (in seconds) of the primary.
    pub fn primary_optime(&self) -> (r: Result<i64, ErrorKind>)
        ensures
            ({
                let k = first_primary_from(self.members@, 0);
                if k == -1 {
                    r is Err && message_error(
                        r->Err_0,
                        "Unable to find primary node in members list"@,
                    )
                } else {
                    r == Ok::<i64, ErrorKind>(self.members@[k].optime.ts.t as i64)
                }
            }),
    {
        match primary_member(&self.members) {
            Some(i) => Ok(self.members[i].optime.ts.t as i64),
            None => Err(
                ErrorKind::FreeForm("Unable to find primary node in members list".to_owned()),
            ),
        }
    }

    /// The node's role in the replica set.
    pub fn role(&self) -> (r: Result<ShardRole, ErrorKind>)
        ensures
            r is Ok <==> known_state(self.my_state),
            r is Ok ==> is_role_of(self.my_state, r->Ok_0),
            r is Err ==> message_error(r->Err_0, "Unkown MongoDB node state"@),
    {
        match role_of(self.my_state) {
            Some(role) => Ok(role),
            None => Err(ErrorKind::FreeForm("Unkown MongoDB node state".to_owned())),
        }
    }
}

/// The lag the 3.2 backend reports: zero for a primary; otherwise how far
/// the node's latest operation is behind the primary's, when there is one.
pub open spec fn lag_v3_2(s: ReplSetStatus, role: ShardRole, last_op: i64) -> Option<i64> {
    if role == ShardRole::Primary {
        Some(0)
    } else {
        let k = first_primary_from(s.members@, 0);
        if k == -1 {
            None
        } else {
            Some((s.members@[k].optime.ts.t - last_op) as i64)
        }
    }
}

/// The shard that the node serves, as the 3.2 backend reports it: named after
/// the replica set, with the node's role, its latest operation as commit
/// offset, and its lag behind the primary (zero for a primary).
pub fn shard_from_status(status: &ReplSetStatus) -> (r: Result<Shard, ErrorKind>)
    ensures
        ({
            let k = first_self_from(status.members@, 0);
            &&& r is Ok <==> k != -1 && known_state(status.my_state)
            &&& k == -1 ==> r is Err && message_error(
                r->Err_0,
                "Unable to find self in members list"@,
            )
            &&& k != -1 && !known_state(status.my_state) ==> r is Err && message_error(
                r->Err_0,
                "Unkown MongoDB node state"@,
            )
            &&& r is Ok ==> {
                let last = status.members@[k].optime.ts.t as i64;
                &&& r->Ok_0.id == status.set
                &&& is_role_of(status.my_state, r->Ok_0.role)
                &&& r->Ok_0.commit_offset == Some(last)
                &&& r->Ok_0.lag == lag_v3_2(*status, r->Ok_0.role, last)
            }
        }),
{
    let last_op = match status.last_op() {
        Ok(t) => t,
        Err(e) => return Err(e),
    };
    let role = match status.role() {
        Ok(role) => role,
        Err(e) => return Err(e),
    };
    let lag = match role {
        ShardRole::Primary => Some(0),
        _ => match status.primary_optime() {
            Ok(head) => Some(head - last_op),
            Err(_) => None,
        },
    };
    Ok(Shard { id: status.set.clone(), role, commit_offset: Some(last_op), lag })
}

} // verus!
