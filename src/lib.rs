//! Supervision of a local inference backend process: launch planning,
//! ownership of the single backend handle, the exit-time termination
//! protocol, and the decisions around the backend's HTTP interface.

pub mod command;
pub mod backend_api;
pub mod supervisor;
pub mod text;
