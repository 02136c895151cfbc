//! Control plane of a node: the request router, the transport registry, the
//! node manager's state and bootstrap, and the decisions of the enrollment flow.
//!
//! Everything here works on plain values. Network, storage and cryptographic
//! work is done by the caller, which reports each outcome back as an event.

pub mod error;
pub mod text;
pub mod alias;
pub mod transport;
pub mod registry;
pub mod config;
pub mod authorities;
pub mod envelope;
pub mod router;
pub mod manager;
pub mod bootstrap;
pub mod enroll;
