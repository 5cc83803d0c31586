//! A Secrets provider that knows no secret, for fixtures that are not
//! production.

use vstd::prelude::*;

use crate::failure::RuntimeFailure;
use crate::text;

verus! {

/// The identity of the package.
pub const PACKAGE_ID: &'static str = "lenso.organization.fixture";

/// What an Instance of the fixture is.
#[derive(Clone, Copy, Debug, PartialEq, Eq, Structural)]
pub enum FixtureInstance {
    /// It provides Secrets.
    Secrets,
    /// It provides nothing.
    Consumer,
}

/// Why a secret was not resolved.
#[derive(Clone, Copy, Debug, PartialEq, Eq, Structural)]
pub enum ResolveError {
    UnknownReference,
}

/// The provider that knows no secret.
#[derive(Clone, Copy, Debug)]
pub struct FixtureSecrets;

impl FixtureSecrets {
    /// Resolves no reference.
    pub fn resolve(&self, reference: &str) -> (result: Result<String, ResolveError>)
        ensures
            result == Err::<String, ResolveError>(ResolveError::UnknownReference),
    {
        Err(ResolveError::UnknownReference)
    }
}

/// Makes Instances of the fixture.
#[derive(Clone, Copy, Debug, Default)]
pub struct FixtureSecretsFactory;

/// What a plan asks the fixture for: nothing but an empty configuration is
/// accepted, and nothing but the two entrypoints.
pub open spec fn planned(configuration: Seq<char>, entrypoint: Seq<char>) -> Result<
    FixtureInstance,
    RuntimeFailure<Seq<char>>,
> {
    if configuration != "{}"@ {
        Err(
            RuntimeFailure::InvalidResolvedPlan {
                detail: "Organization fixture accepts only empty configuration"@,
            },
        )
    } else if entrypoint == "secrets"@ {
        Ok(FixtureInstance::Secrets)
    } else if entrypoint == "consumer"@ {
        Ok(FixtureInstance::Consumer)
    } else {
        Err(
            RuntimeFailure::InvalidResolvedPlan {
                detail: "unsupported Organization fixture entrypoint `"@ + entrypoint + "`"@,
            },
        )
    }
}

impl FixtureSecretsFactory {
    /// The identity of the package.
    pub fn package_id(&self) -> (result: &'static str)
        ensures
            result@ == PACKAGE_ID@,
    {
        PACKAGE_ID
    }

    /// What the plan asks for.
    pub fn instantiate(
        &self,
        configuration: &str,
        entrypoint: &str,
    ) -> (result: Result<FixtureInstance, RuntimeFailure>)
        ensures
            (match result {
                Ok(instance) => Ok(instance),
                Err(failure) => Err(failure@),
            }) == planned(configuration@, entrypoint@),
    {
        if !text::same(configuration, "{}") {
            return Err(
                RuntimeFailure::InvalidResolvedPlan {
                    detail: "Organization fixture accepts only empty configuration".to_owned(),
                },
            );
        }
        if text::same(entrypoint, "secrets") {
            return Ok(FixtureInstance::Secrets);
        }
        if text::same(entrypoint, "consumer") {
            return Ok(FixtureInstance::Consumer);
        }
        Err(
            RuntimeFailure::InvalidResolvedPlan {
                detail: text::enclose(
                    "unsupported Organization fixture entrypoint `",
                    entrypoint,
                    "`",
                ),
            },
        )
    }
}

} // verus!
