//! Core of a minimal concurrent key-value server.
//!
//! The library holds the verified logic of the server: the shared in-memory
//! [`store::Store`], the [`protocol`] command and response types, and the
//! per-connection request/response state machine in [`session`]. Transport,
//! framing and task spawning are left to the embedding program, which feeds
//! decoded commands in and carries response frames out.

pub mod laws;
pub mod protocol;
pub mod session;
pub mod store;
pub mod util;
