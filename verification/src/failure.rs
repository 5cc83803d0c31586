//! What goes wrong outside the Domain: storage, randomness, and a plan that
//! cannot be run.

use vstd::prelude::*;

use crate::text;

verus! {

/// A failure that a caller cannot mend by changing its request.
///
/// The parameter is `String` in executable code and a sequence of code points
/// in contracts.
#[derive(Clone, Debug, PartialEq, Eq)]
pub enum RuntimeFailure<S = String> {
    /// The resolved plan names something that cannot be instantiated.
    InvalidResolvedPlan { detail: S },
    /// A Plugin failed at work.
    PluginFailure { detail: S },
    /// A Module failed at work.
    ModuleFailure { detail: S },
}

impl View for RuntimeFailure {
    type V = RuntimeFailure<Seq<char>>;

    open spec fn view(&self) -> RuntimeFailure<Seq<char>> {
        match self {
            RuntimeFailure::InvalidResolvedPlan { detail } => RuntimeFailure::InvalidResolvedPlan {
                detail: detail@,
            },
            RuntimeFailure::PluginFailure { detail } => RuntimeFailure::PluginFailure {
                detail: detail@,
            },
            RuntimeFailure::ModuleFailure { detail } => RuntimeFailure::ModuleFailure {
                detail: detail@,
            },
        }
    }
}

/// What the storage and identifier code reports.
#[derive(Clone, Copy, Debug, PartialEq, Eq)]
pub enum OrganizationError {
    /// A PostgreSQL operation failed.
    Database { operation: &'static str },
    /// No random bytes could be had.
    Random,
    /// Stored state contradicts what the library keeps true of it.
    Invariant { detail: &'static str },
}

/// The message of a failed PostgreSQL operation.
pub open spec fn database_message(operation: Seq<char>) -> Seq<char> {
    "PostgreSQL operation `"@ + operation + "` failed"@
}

impl OrganizationError {
    /// The message of the error.
    pub open spec fn text(self) -> Seq<char> {
        match self {
            OrganizationError::Database { operation } => database_message(operation@),
            OrganizationError::Random => "random source unavailable"@,
            OrganizationError::Invariant { detail } => "Organization invariant failed: "@ + detail@,
        }
    }

    /// The message of the error.
    pub fn message(&self) -> (result: String)
        ensures
            result@ == self.text(),
    {
        match self {
            OrganizationError::Database { operation } => text::enclose(
                "PostgreSQL operation `",
                operation,
                "` failed",
            ),
            OrganizationError::Random => "random source unavailable".to_owned(),
            OrganizationError::Invariant { detail } => {
                let result = text::enclose("Organization invariant failed: ", detail, "");
                proof {
                    reveal_strlit("");
                    assert(result@ == "Organization invariant failed: "@ + detail@);
                }
                result
            },
        }
    }
}

} // verus!
