//! A small bug-tracking library: token-based authentication, credential
//! checking, and CRUD logic over users, projects and bug reports.
//!
//! The data store is modelled as an in-memory collection of records with
//! explicit well-formedness invariants; every handler states exactly which
//! inputs succeed and which error each rejected input produces.

use vstd::prelude::*;

pub mod auth;
pub mod db;
pub mod error;
pub mod handlers;
pub mod ids;
pub mod models;
pub mod query;
pub mod store;

verus! {

/// Lifetime of an issued token, in seconds.
pub const TOKEN_LIFETIME_SECS: u64 = 3600;

} // verus!
