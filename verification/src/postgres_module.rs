//! The Organization Module: Organizations whose owners hold a role with
//! permissions, in PostgreSQL.

use vstd::prelude::*;

use crate::failure;
use crate::failure::{OrganizationError, RuntimeFailure};

pub mod config;
pub mod contracts;
pub mod creation;
pub mod laws;
pub mod lifecycle;
pub mod meaning;
pub mod provider;
pub mod reading;
pub mod statements;
pub mod store;
pub mod tables;

verus! {

/// The failure that reports a PostgreSQL operation.
pub open spec fn database_failure(operation: Seq<char>) -> RuntimeFailure<Seq<char>> {
    RuntimeFailure::ModuleFailure { detail: failure::database_message(operation) }
}

/// A failure of the Module with the error's message.
pub fn runtime(error: OrganizationError) -> (result: RuntimeFailure)
    ensures
        result@ == (RuntimeFailure::ModuleFailure { detail: error.text() }),
{
    RuntimeFailure::ModuleFailure { detail: error.message() }
}

/// A failure of the Module in the named PostgreSQL operation.
pub fn database_runtime(operation: &'static str) -> (result: RuntimeFailure)
    ensures
        result@ == database_failure(operation@),
{
    runtime(OrganizationError::Database { operation })
}

} // verus!
