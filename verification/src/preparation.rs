//! What the preparations of the Plugin and of the Module share.

use vstd::prelude::*;

use crate::failure::RuntimeFailure;
use crate::text;

verus! {

/// How the secret that holds the database URL was not had. `F` is a failure of
/// the runtime, which is passed on as it is.
#[derive(Clone, Debug, PartialEq, Eq)]
pub enum SecretFailure<F> {
    /// The Secrets provider refused the reference.
    Rejected,
    /// The provider could not be asked.
    Runtime(F),
}

/// A failure of its own, or one that is passed on.
#[derive(Clone, Debug, PartialEq, Eq)]
pub enum PrepareFailure<F> {
    Own(RuntimeFailure),
    Passed(F),
}

/// The failure of a schema name that may not be owned.
pub open spec fn refused_schema(schema: Seq<char>) -> RuntimeFailure<Seq<char>> {
    RuntimeFailure::InvalidResolvedPlan {
        detail: "invalid owned schema name `"@ + schema + "`"@,
    }
}

/// The failure of a plan that asks for an unknown entrypoint.
pub open spec fn unsupported_entrypoint(entrypoint: Seq<char>) -> RuntimeFailure<Seq<char>> {
    RuntimeFailure::InvalidResolvedPlan {
        detail: "unsupported Organization entrypoint `"@ + entrypoint + "`"@,
    }
}

/// The failure of a plan whose configuration cannot be read.
pub open spec fn unreadable_configuration(error: Seq<char>) -> RuntimeFailure<Seq<char>> {
    RuntimeFailure::InvalidResolvedPlan {
        detail: "Organization configuration is invalid: "@ + error,
    }
}

/// The failure of a plan that asks for an unknown entrypoint.
pub fn refuse_entrypoint(entrypoint: &str) -> (result: RuntimeFailure)
    ensures
        result@ == unsupported_entrypoint(entrypoint@),
{
    RuntimeFailure::InvalidResolvedPlan {
        detail: text::enclose("unsupported Organization entrypoint `", entrypoint, "`"),
    }
}

/// The failure of a plan whose configuration cannot be read.
pub fn refuse_configuration(error: &str) -> (result: RuntimeFailure)
    ensures
        result@ == unreadable_configuration(error@),
{
    let detail = text::enclose("Organization configuration is invalid: ", error, "");
    proof {
        reveal_strlit("");
        assert(detail@ == "Organization configuration is invalid: "@ + error@);
    }
    RuntimeFailure::InvalidResolvedPlan { detail }
}

} // verus!
