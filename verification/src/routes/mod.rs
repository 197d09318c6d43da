//! What the HTTP handlers decide: validation of requests and the answers to
//! them.
pub mod apply;
pub mod search;
