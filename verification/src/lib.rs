//! Structured logging for a web server's lifecycle events.
//!
//! The crate builds the log records that a server emits at startup
//! (one record per registered route and catcher, framed by a launch
//! record and a listening record) and per completed response (user
//! agent, source address, status).  Record construction is verified:
//! each builder's contract pins every field of the record it returns.
//! Serialization of the records and the server framework's callback
//! plumbing live outside the library.

pub mod logger;
pub mod records;
pub mod text;
