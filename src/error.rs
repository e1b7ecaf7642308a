//! Error kinds reported by the agent and how they are labelled for clients.
use vstd::prelude::*;

verus! {

/// Exhaustive list of possible errors emitted by this crate.
///
/// Action and record identifiers are carried as their 128-bit value.
#[derive(Clone, Debug, PartialEq, Eq)]
pub enum ErrorKind {
    /// An action with the given id already exists.
    ActionAlreadyExists(u128),
    /// Unable to decode action information.
    ActionDecode,
    /// Unable to encode action information.
    ActionEncode,
    /// Actions with the given kind are not available.
    ActionNotAvailable(String),
    /// No action with the given id is stored.
    ActionNotFound(u128),
    /// The record changed since it was read: the compare-and-swap lost.
    ActionConflict(u128),
    /// The requested state does not strictly advance the record's current state.
    ActionInvalidTransition(u128),
    /// Invalid configuration (two settings clash).
    ConfigClash(String),
    /// Unable to load configuration.
    ConfigLoad,
    /// Invalid configuration for the named option.
    ConfigOption(String),
    /// Connection error to a service at an address.
    Connection(String, String),
    /// Unable to check an external action (kind, id).
    ExternalActionCheck(String, u128),
    /// Unable to decode the check result of an external action.
    ExternalActionCheckDecode(u128),
    /// External action check command failed (id, standard out, standard error).
    ExternalActionCheckResult(u128, String, String),
    /// External action start command failed (id, standard out, standard error).
    ExternalActionExec(u128, String, String),
    /// External action failed to start (kind, id).
    ExternalActionStart(String, u128),
    /// Generic context agents can use if provided contexts are not enough.
    FreeForm(String),
    /// Agent initialisation error.
    Initialisation(String),
    /// Invalid datastore state.
    InvalidStoreState(String),
    /// I/O error on a file.
    Io(String),
    /// Unable to commit transaction to persistent DB.
    PersistentCommit,
    /// Unable to migrate persistent DB.
    PersistentMigrate,
    /// No connection to the persistent DB is available.
    PersistentNoConnection,
    /// Failed to read an item from the persistent store.
    PersistentRead(String),
    /// Failed to write an item to the persistent store.
    PersistentWrite(String),
    /// Unable to open the persistent DB.
    PersistentOpen(String),
    /// Unable to initialise the persistent DB connections pool.
    PersistentPool,
    /// Could not decode a store response (response, operation).
    ResponseDecode(String, String),
    /// A service operation failed.
    ServiceOpFailed(String),
    /// A datastore operation failed.
    StoreOpFailed(String),
    /// Unable to spawn a thread.
    ThreadSpawn(String),
    /// No registered backend supports the detected datastore version.
    UnsupportedVersion(String),
}

/// Machine-readable label of each error kind.
pub open spec fn kind_label(k: ErrorKind) -> Seq<char> {
    match k {
        ErrorKind::ActionAlreadyExists(_) => "ActionAlreadyExists"@,
        ErrorKind::ActionDecode => "ActionDecode"@,
        ErrorKind::ActionEncode => "ActionEncode"@,
        ErrorKind::ActionNotAvailable(_) => "ActionNotAvailable"@,
        ErrorKind::ActionNotFound(_) => "ActionNotFound"@,
        ErrorKind::ActionConflict(_) => "ActionConflict"@,
        ErrorKind::ActionInvalidTransition(_) => "ActionInvalidTransition"@,
        ErrorKind::ConfigClash(_) => "ConfigClash"@,
        ErrorKind::ConfigLoad => "ConfigLoad"@,
        ErrorKind::ConfigOption(_) => "ConfigOption"@,
        ErrorKind::Connection(_, _) => "Connection"@,
        ErrorKind::ExternalActionCheck(_, _) => "ExternalActionCheck"@,
        ErrorKind::ExternalActionCheckDecode(_) => "ExternalActionCheckDecode"@,
        ErrorKind::ExternalActionCheckResult(_, _, _) => "ExternalActionCheckResult"@,
        ErrorKind::ExternalActionExec(_, _, _) => "ExternalActionExec"@,
        ErrorKind::ExternalActionStart(_, _) => "ExternalActionStart"@,
        ErrorKind::FreeForm(_) => "FreeForm"@,
        ErrorKind::Initialisation(_) => "Initialisation"@,
        ErrorKind::InvalidStoreState(_) => "InvalidStoreState"@,
        ErrorKind::Io(_) => "Io"@,
        ErrorKind::PersistentCommit => "PersistentCommit"@,
        ErrorKind::PersistentMigrate => "PersistentMigrate"@,
        ErrorKind::PersistentNoConnection => "PersistentNoConnection"@,
        ErrorKind::PersistentRead(_) => "PersistentRead"@,
        ErrorKind::PersistentWrite(_) => "PersistentWrite"@,
        ErrorKind::PersistentOpen(_) => "PersistentOpen"@,
        ErrorKind::PersistentPool => "PersistentPool"@,
        ErrorKind::ResponseDecode(_, _) => "ResponseDecode"@,
        ErrorKind::ServiceOpFailed(_) => "ServiceOpFailed"@,
        ErrorKind::StoreOpFailed(_) => "StoreOpFailed"@,
        ErrorKind::ThreadSpawn(_) => "ThreadSpawn"@,
        ErrorKind::UnsupportedVersion(_) => "UnsupportedVersion"@,
    }
}

/// HTTP status that a client sees for an error kind: these are the agent's
/// own failures, all server-class. Invalid requests are reported as
/// validation errors instead, which are client-class.
pub open spec fn status_of(k: ErrorKind) -> u16 {
    500
}

impl ErrorKind {
    /// HTTP status code used when this error reaches a client.
    pub fn http_status(&self) -> (r: u16)
        ensures
            r == status_of(*self),
    {
        500
    }

    /// Machine-readable name of the error kind.
    pub fn kind_name(&self) -> (r: &'static str)
        ensures
            r@ == kind_label(*self),
    {
        let name = match self {
            ErrorKind::ActionAlreadyExists(_) => "ActionAlreadyExists",
            ErrorKind::ActionDecode => "ActionDecode",
            ErrorKind::ActionEncode => "ActionEncode",
            ErrorKind::ActionNotAvailable(_) => "ActionNotAvailable",
            ErrorKind::ActionNotFound(_) => "ActionNotFound",
            ErrorKind::ActionConflict(_) => "ActionConflict",
            ErrorKind::ActionInvalidTransition(_) => "ActionInvalidTransition",
            ErrorKind::ConfigClash(_) => "ConfigClash",
            ErrorKind::ConfigLoad => "ConfigLoad",
            ErrorKind::ConfigOption(_) => "ConfigOption",
            ErrorKind::Connection(_, _) => "Connection",
            ErrorKind::ExternalActionCheck(_, _) => "ExternalActionCheck",
            ErrorKind::ExternalActionCheckDecode(_) => "ExternalActionCheckDecode",
            ErrorKind::ExternalActionCheckResult(_, _, _) => "ExternalActionCheckResult",
            ErrorKind::ExternalActionExec(_, _, _) => "ExternalActionExec",
            ErrorKind::ExternalActionStart(_, _) => "ExternalActionStart",
            ErrorKind::FreeForm(_) => "FreeForm",
            ErrorKind::Initialisation(_) => "Initialisation",
            ErrorKind::InvalidStoreState(_) => "InvalidStoreState",
            ErrorKind::Io(_) => "Io",
            ErrorKind::PersistentCommit => "PersistentCommit",
            ErrorKind::PersistentMigrate => "PersistentMigrate",
            ErrorKind::PersistentNoConnection => "PersistentNoConnection",
            ErrorKind::PersistentRead(_) => "PersistentRead",
            ErrorKind::PersistentWrite(_) => "PersistentWrite",
            ErrorKind::PersistentOpen(_) => "PersistentOpen",
            ErrorKind::PersistentPool => "PersistentPool",
            ErrorKind::ResponseDecode(_, _) => "ResponseDecode",
            ErrorKind::ServiceOpFailed(_) => "ServiceOpFailed",
            ErrorKind::StoreOpFailed(_) => "StoreOpFailed",
            ErrorKind::ThreadSpawn(_) => "ThreadSpawn",
            ErrorKind::UnsupportedVersion(_) => "UnsupportedVersion",
        };
        name
    }
}

/// Error information returned by functions in case of errors.
#[derive(Clone, Debug, PartialEq, Eq)]
pub struct Error {
    pub kind: ErrorKind,
}

impl Error {
    /// Wraps an error kind.
    pub fn from_kind(kind: ErrorKind) -> (r: Error)
        ensures
            r.kind == kind,
    {
        Error { kind }
    }

    /// The kind of this error.
    pub fn kind(&self) -> (r: &ErrorKind)
        ensures
            *r == self.kind,
    {
        &self.kind
    }
}

} // verus!
