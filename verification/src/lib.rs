//! A verified Interledger (ILP) relay core: the binary packet codec, the
//! longest-prefix routing table, the HTTP method and authorization filters,
//! and the decision logic of the outgoing client, each with a contract.
//!
//! The surrounding HTTP transport (sockets, timers, connection pools) lives
//! outside this crate; it hands these functions plain values and performs the
//! requests they describe.

pub mod auth;
pub mod bytes;
pub mod client;
pub mod connector;
pub mod http;
pub mod method;
pub mod msgs;
pub mod oer;
pub mod packet;
pub mod receiver;
pub mod relay;
pub mod routes;
