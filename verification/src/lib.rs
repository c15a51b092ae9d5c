//! Resilient request dispatch for the Kiro assistant API.
//!
//! A call is carried by a pool of credentials. This crate holds the rules of
//! such a call: how many attempts it may make, how long it waits between
//! them, how an answer of the service is classified, which headers a request
//! carries, and which step follows each event of an attempt.

pub mod classify;
pub mod config;
pub mod dispatch;
pub mod error;
pub mod headers;
pub mod json;
pub mod laws;
pub mod provider;
pub mod retry;
pub mod text;
