//! A typed client core for a full-node daemon's JSON-RPC interface.
//!
//! The heart of the crate is the variant decoder: given the parameters that
//! were sent on a call and the raw JSON payload that came back, it selects and
//! decodes exactly one of the structurally distinct record shapes the daemon
//! can return, or fails with a decode error.  The HTTP transport itself is an
//! outside concern; this crate builds the requests, validates the client
//! configuration, and decodes the responses.

pub mod errors;
pub mod num;
pub mod json;
pub mod model;
pub mod decode;
pub mod chain;
pub mod client;
