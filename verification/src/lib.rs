//! The translation core of an HTTP relay: a caller describes an outbound HTTP
//! call, the relay validates the description, builds the request, and turns
//! the target's answer into the caller-facing reply.

pub mod descriptor;
pub mod error;
pub mod guarantees;
pub mod headers;
pub mod method;
pub mod outbound;
pub mod payload;
pub mod response;
pub mod transaction;
pub mod wire;
