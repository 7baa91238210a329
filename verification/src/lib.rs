//! Request-handling core of a code-execution web service.
//!
//! The library holds the transport-agnostic logic: a TTL-bound metadata
//! cache with conditional-fetch support, the dispatch pipeline that every
//! stateful operation goes through, the access guard for the diagnostics
//! endpoint, and the deterministic multi-file snippet codec. Transport
//! adapters and the calls to the execution backend live outside of it and
//! hand it plain values.

pub mod cache;
pub mod dispatch;
pub mod error;
pub mod gist;
pub mod guard;
pub mod meta;
pub mod strutil;
