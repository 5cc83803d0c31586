//! The Organization Plugin: Organizations, memberships and receipts in
//! PostgreSQL.
//!
//! Every operation that writes runs as a transaction: a value that says which
//! request goes to the database next and where each reply leads.

use vstd::prelude::*;

use crate::failure;
use crate::failure::{OrganizationError, RuntimeFailure};

pub mod config;
pub mod creation;
pub mod effects;
pub mod history;
pub mod isolation;
pub mod laws;
pub mod lifecycle;
pub mod meaning;
pub mod membership;
pub mod overlap;
pub mod provider;
pub mod queries;
pub mod reading;
pub mod statements;
pub mod store;
pub mod tables;
pub mod upgrade;

verus! {

/// The failure that reports a broken invariant.
pub open spec fn invariant_failure(detail: Seq<char>) -> RuntimeFailure<Seq<char>> {
    RuntimeFailure::PluginFailure { detail: "Organization invariant failed: "@ + detail }
}

/// The failure that reports a PostgreSQL operation.
pub open spec fn database_failure(operation: Seq<char>) -> RuntimeFailure<Seq<char>> {
    RuntimeFailure::PluginFailure { detail: failure::database_message(operation) }
}

/// A failure of the Plugin with the error's message.
pub fn runtime(error: OrganizationError) -> (result: RuntimeFailure)
    ensures
        result@ == (RuntimeFailure::PluginFailure { detail: error.text() }),
{
    RuntimeFailure::PluginFailure { detail: error.message() }
}

/// A failure of the Plugin in the named PostgreSQL operation.
pub fn database_runtime(operation: &'static str) -> (result: RuntimeFailure)
    ensures
        result@ == database_failure(operation@),
{
    runtime(OrganizationError::Database { operation })
}

} // verus!
