//! Action execution core of a datastore-monitoring agent: a catalog of
//! actions, a store of action records with compare-and-swap updates, the
//! lifecycle that drives records from New through Running to Done or Failed,
//! the decisions for actions run as external processes, and the selection of
//! a backend by datastore version. Status readers for the monitored
//! datastores and the agent's configuration defaults sit beside it.
pub mod actions;
pub mod catalog;
pub mod config;
pub mod error;
pub mod external;
pub mod lifecycle;
pub mod replset;
pub mod replset_v3_2;
pub mod srvr;
pub mod store;
pub mod version;
