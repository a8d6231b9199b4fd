//! A single-request credential broker.
//!
//! One invocation turns a request that names a stored service-account
//! credential into one response: the credential is fetched from object
//! storage, checked, and exchanged for a short-lived access token. This crate
//! holds the decisions of that pipeline; the waiting on storage and on the
//! identity provider is left to the caller, who hands each outcome back.

pub mod credential;
pub mod error;
pub mod guarantees;
pub mod json;
pub mod pipeline;
pub mod response;
pub mod storage;
