//! Supervision of one JSON-RPC connection to a light client's chain: the
//! chain specification it opens, the requests it sends, how it reads health
//! replies, and the decisions that keep the connection alive.
pub mod chain_spec;
pub mod health;
pub mod json;
pub mod request;
pub mod supervisor;
