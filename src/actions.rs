//! Action states, descriptors and records.
use vstd::prelude::*;

verus! {

/// Current state of an action execution.
#[derive(Clone, Copy, Debug, PartialEq, Eq, Hash, Structural)]
pub enum ActionState {
    /// The action ended successfully.
    Done,
    /// The action ended with an error.
    Failed,
    /// The action has just been scheduled and is not being executed yet.
    New,
    /// The action was started by the agent and is in progress.
    Running,
}

/// Position of a state along the lifecycle: New, then Running, then a terminal state.
pub open spec fn stage(s: ActionState) -> int {
    match s {
        ActionState::New => 0,
        ActionState::Running => 1,
        ActionState::Done => 2,
        ActionState::Failed => 2,
    }
}

/// Terminal states are Done and Failed.
pub open spec fn finished(s: ActionState) -> bool {
    s == ActionState::Done || s == ActionState::Failed
}

impl ActionState {
    /// True if the action is finished (failed or succeeded).
    pub fn is_finished(&self) -> (r: bool)
        ensures
            r == finished(*self),
    {
        match self {
            ActionState::Done => true,
            ActionState::Failed => true,
            _ => false,
        }
    }
}

/// Where a lifecycle step may move a record: forward along the stages, or stay
/// in place (a payload or lease update). Terminal states never change.
pub open spec fn step_allowed(from: ActionState, to: ActionState) -> bool {
    if finished(from) {
        to == from
    } else {
        to == from || stage(to) > stage(from)
    }
}

/// Container for an action's metadata and other attributes.
#[derive(Clone, Debug, PartialEq, Eq, Hash)]
pub struct ActionDescriptor {
    pub kind: String,
    pub description: String,
}

/// Entity (system, user, ...) that requested the action to be performed.
#[derive(Clone, Copy, Debug, PartialEq, Eq, Hash, Structural)]
pub enum ActionRequester {
    Api,
}

/// Payload attached to a record's current state.
#[derive(Clone, Debug, PartialEq, Eq)]
pub enum StatePayload {
    /// Handle of a launched external process, used to poll it.
    Handle(String),
    /// Output an action produced when it succeeded.
    Output(String),
    /// Failure reported by an in-process invocation.
    InvokeFailed(String),
    /// The external process could not be started (standard out, standard error).
    StartFailed(String, String),
    /// The external process ended with a failure (standard out, standard error).
    CheckFailed(String, String),
    /// The external process succeeded but its output could not be decoded; the raw output is kept.
    DecodeFailed(String),
    /// The external action did not finish within its maximum wait (milliseconds waited).
    Timeout(u64),
    /// Polling was cancelled on request.
    Cancelled,
    /// The record's action kind (or its agent version) is not available any more.
    KindUnavailable(String),
    /// The lease expired and the in-process work cannot be trusted across a restart.
    Abandoned,
}

impl StatePayload {
    /// A copy of this payload, equal to it.
    pub fn duplicate(&self) -> (r: StatePayload)
        ensures
            r == *self,
    {
        match self {
            StatePayload::Handle(h) => StatePayload::Handle(h.clone()),
            StatePayload::Output(o) => StatePayload::Output(o.clone()),
            StatePayload::InvokeFailed(m) => StatePayload::InvokeFailed(m.clone()),
            StatePayload::StartFailed(o, e) => StatePayload::StartFailed(o.clone(), e.clone()),
            StatePayload::CheckFailed(o, e) => StatePayload::CheckFailed(o.clone(), e.clone()),
            StatePayload::DecodeFailed(o) => StatePayload::DecodeFailed(o.clone()),
            StatePayload::Timeout(ms) => StatePayload::Timeout(*ms),
            StatePayload::Cancelled => StatePayload::Cancelled,
            StatePayload::KindUnavailable(k) => StatePayload::KindUnavailable(k.clone()),
            StatePayload::Abandoned => StatePayload::Abandoned,
        }
    }
}

/// Two records hold the same values in every field.
pub open spec fn same_record(a: ActionRecord, b: ActionRecord) -> bool {
    &&& a.action == b.action
    &&& a.agent_version == b.agent_version
    &&& a.args == b.args
    &&& a.created_ts == b.created_ts
    &&& a.headers@ == b.headers@
    &&& a.id == b.id
    &&& a.requester == b.requester
    &&& a.state == b.state
    &&& a.state_payload == b.state_payload
}

/// The list entry that summarises a record.
pub open spec fn item_of(r: ActionRecord) -> ActionListItem {
    ActionListItem { action: r.action, id: r.id, state: r.state }
}

/// Summary info about an action returned in lists.
#[derive(Clone, Debug, PartialEq, Eq)]
pub struct ActionListItem {
    pub action: String,
    pub id: u128,
    pub state: ActionState,
}

/// Action state and metadata information.
#[derive(Clone, Debug, PartialEq, Eq)]
pub struct ActionRecord {
    /// Type ID of the action to run.
    pub action: String,
    /// Version of the agent that last validated the action.
    pub agent_version: String,
    /// Arguments passed to the action when invoked, as JSON text.
    pub args: String,
    /// Time the agent recorded the action, in milliseconds since the Unix epoch.
    pub created_ts: i64,
    /// Additional metadata headers attached to the action.
    pub headers: Vec<(String, String)>,
    /// Unique ID of the action.
    pub id: u128,
    /// Entity (system or user) requesting the execution of the action.
    pub requester: ActionRequester,
    /// State the action is currently in.
    pub state: ActionState,
    /// Optional payload attached to the current state.
    pub state_payload: Option<StatePayload>,
}

/// Version of this agent, recorded on every action it validates.
pub const AGENT_VERSION: &'static str = "0.1.0";

/// Relies on uuid::Uuid::now_v7: an identifier made of the current time and
/// random bits, as its 128-bit value; those drawn by one process are ordered
/// by their creation.
#[verifier::external_body]
pub(crate) fn fresh_action_id() -> (r: u128) {
    uuid::Uuid::now_v7().as_u128()
}

/// Relies on chrono::Utc::now: the current time, in milliseconds since the Unix epoch.
#[verifier::external_body]
pub(crate) fn now_millis() -> (r: i64) {
    chrono::Utc::now().timestamp_millis()
}

impl ActionRecord {
    /// A new record in state New for the given identity and creation time.
    pub fn with_identity(
        action: String,
        args: String,
        requester: ActionRequester,
        id: u128,
        created_ts: i64,
    ) -> (r: ActionRecord)
        ensures
            r.action@ == action@,
            r.agent_version@ == AGENT_VERSION@,
            r.args@ == args@,
            r.created_ts == created_ts,
            r.headers@.len() == 0,
            r.id == id,
            r.requester == requester,
            r.state == ActionState::New,
            r.state_payload.is_none(),
    {
        ActionRecord {
            action,
            agent_version: AGENT_VERSION.to_owned(),
            args,
            created_ts,
            headers: Vec::new(),
            id,
            requester,
            state: ActionState::New,
            state_payload: None,
        }
    }

    /// A new record in state New with a fresh random id, created now.
    pub fn new(action: String, args: String, requester: ActionRequester) -> (r: ActionRecord)
        ensures
            r.action@ == action@,
            r.agent_version@ == AGENT_VERSION@,
            r.args@ == args@,
            r.headers@.len() == 0,
            r.requester == requester,
            r.state == ActionState::New,
            r.state_payload.is_none(),
    {
        let id = fresh_action_id();
        let created_ts = now_millis();
        ActionRecord::with_identity(action, args, requester, id, created_ts)
    }

    /// Summary of this record for lists.
    pub fn list_item(&self) -> (r: ActionListItem)
        ensures
            r == item_of(*self),
    {
        ActionListItem { action: self.action.clone(), id: self.id, state: self.state }
    }

    /// A copy of this record, equal to it in every field.
    pub fn duplicate(&self) -> (r: ActionRecord)
        ensures
            same_record(r, *self),
    {
        let mut headers: Vec<(String, String)> = Vec::new();
        let mut i: usize = 0;
        while i < self.headers.len()
            invariant
                i <= self.headers@.len(),
                headers@ == self.headers@.subrange(0, i as int),
            decreases self.headers@.len() - i,
        {
            let (k, v) = &self.headers[i];
            headers.push((k.clone(), v.clone()));
            i = i + 1;
            assert(headers@ =~= self.headers@.subrange(0, i as int));
        }
        assert(headers@ =~= self.headers@);
        let state_payload = match &self.state_payload {
            None => None,
            Some(p) => Some(p.duplicate()),
        };
        ActionRecord {
            action: self.action.clone(),
            agent_version: self.agent_version.clone(),
            args: self.args.clone(),
            created_ts: self.created_ts,
            headers,
            id: self.id,
            requester: self.requester,
            state: self.state,
            state_payload,
        }
    }
}

/// Result of action validation process.
#[derive(Clone, Debug, PartialEq, Eq)]
pub enum ActionValidityError {
    /// The arguments are not valid, for the given reason.
    InvalidArgs(String),
}

/// The JSON text that `serde_json` writes for an object of two string members.
pub uninterp spec fn json_pair_object(
    k1: Seq<char>,
    v1: Seq<char>,
    k2: Seq<char>,
    v2: Seq<char>,
) -> Seq<char>;

/// Relies on serde_json (a `Map` of two string values, written by `to_string`)
/// to render an object with two string members as JSON text.
#[verifier::external_body]
fn json_object_of_two(k1: &str, v1: &str, k2: &str, v2: &str) -> (r: String)
    ensures
        r@ == json_pair_object(k1@, v1@, k2@, v2@),
{
    let mut map = serde_json::Map::new();
    map.insert(k1.to_owned(), serde_json::Value::String(v1.to_owned()));
    map.insert(k2.to_owned(), serde_json::Value::String(v2.to_owned()));
    serde_json::Value::Object(map).to_string()
}

impl ActionValidityError {
    /// Human-readable description of the error.
    pub fn message(&self) -> (r: String)
        ensures
            match self {
                ActionValidityError::InvalidArgs(reason) => r@ == "invalid action arguments: "@
                    + reason@,
            },
    {
        match self {
            ActionValidityError::InvalidArgs(reason) => "invalid action arguments: ".to_owned().concat(
                reason.as_str(),
            ),
        }
    }

    /// The body of the client error response: a JSON object with the
    /// message under "error" and the kind under "kind".
    pub fn response_body(&self) -> (r: String)
        ensures
            match self {
                ActionValidityError::InvalidArgs(reason) => r@ == json_pair_object(
                    "error"@,
                    "invalid action arguments: "@ + reason@,
                    "kind"@,
                    "InvalidArgs"@,
                ),
            },
    {
        let message = self.message();
        json_object_of_two("error", message.as_str(), "kind", self.kind())
    }

    /// Machine-readable name of the validation error.
    pub fn kind(&self) -> (r: &'static str)
        ensures
            r@ == "InvalidArgs"@,
    {
        match self {
            ActionValidityError::InvalidArgs(_) => "InvalidArgs",
        }
    }

    /// Validation failures are client errors: HTTP 400.
    pub fn http_status(&self) -> (r: u16)
        ensures
            r == 400,
    {
        400
    }
}

/// Abstraction of any action the agent can perform.
///
/// Action kinds are scoped to limit the chance of clashes, using the
/// `<SCOPE>.<ACTION>` format.
pub trait Action {
    /// The kind this action is registered under.
    spec fn kind(&self) -> Seq<char>;

    /// Action metadata and attributes.
    fn describe(&self) -> (r: ActionDescriptor)
        ensures
            r.kind@ == self.kind(),
    ;

    /// The arguments (JSON text) this action accepts.
    spec fn valid_args(&self, args: Seq<char>) -> bool;

    /// Validate the arguments (JSON text) passed to an action request.
    fn validate_args(&self, args: &String) -> (r: Result<(), ActionValidityError>)
        ensures
            r is Ok <==> self.valid_args(args@),
    ;

    /// Performs the action for the record; a failure carries its reason.
    fn invoke(&self, record: &ActionRecord) -> Result<(), String>;
}

} // verus!
