//! Synchronization and credential-lifecycle engine for a personal finance
//! tracker fed by an open-banking aggregator.
//!
//! The crate centres on three pieces of logic: the reconciliation engine that
//! compares freshly fetched transactions with what is stored and decides
//! between insert, full replace and no-op; the token broker that decides when
//! a cached bearer token must be refreshed; and the batching rules for bulk
//! transaction writes.  The persistent store is modelled by [`db::Db`], an
//! in-memory image of the schema that the engine's contracts are stated
//! against and that doubles as a test double for the real store.

#![verifier::loop_isolation(false)]

use vstd::prelude::*;

pub mod amount;
pub mod broker;
pub mod config;
pub mod cron;
pub mod db;
pub mod sync;
pub mod text;
pub mod true_layer;

pub use config::Config;
pub use db::Db;

verus! {

/// The error taxonomy of the engine.
///
/// `NetworkError` covers transport failures, `AuthError` a structured 4xx
/// body from the aggregator's endpoints, `UpstreamError` any other
/// non-success status, `DecodeError` a malformed response body and
/// `StoreError` a persistence failure.
#[derive(Debug, Clone, PartialEq)]
pub enum Error {
    NetworkError,
    AuthError { code: String, description: Option<String> },
    UpstreamError { status: u16 },
    DecodeError,
    StoreError,
}

/// Copies an error value.
pub fn clone_error(e: &Error) -> (r: Error)
    ensures
        r == *e,
{
    match e {
        Error::NetworkError => Error::NetworkError,
        Error::AuthError { code, description } => Error::AuthError {
            code: code.clone(),
            description: text::clone_opt_string(description),
        },
        Error::UpstreamError { status } => Error::UpstreamError { status: *status },
        Error::DecodeError => Error::DecodeError,
        Error::StoreError => Error::StoreError,
    }
}

} // verus!
