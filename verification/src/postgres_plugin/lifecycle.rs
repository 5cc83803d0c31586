//! What `prepare` asks for and how each answer is taken.

use lenso_postgres_kit::SchemaPlan;
use vstd::prelude::*;

use crate::failure::RuntimeFailure;
use crate::postgres_plugin::config::OrganizationConfig;
use crate::preparation;
use crate::preparation::{PrepareFailure, SecretFailure};
use crate::schema;
use crate::text;

verus! {

/// The failure of a refused reference.
pub open spec fn rejected_secret(reference: Seq<char>) -> RuntimeFailure<Seq<char>> {
    RuntimeFailure::PluginFailure {
        detail: "database URL secret `"@ + reference + "` was rejected"@,
    }
}

/// Prepares and deactivates one Instance.
#[derive(Clone, Debug, PartialEq, Eq)]
pub struct OrganizationLifecycle {
    pub config: OrganizationConfig,
}

impl OrganizationLifecycle {
    /// The reference of the secret that `prepare` resolves first.
    pub fn secret_reference(&self) -> (result: String)
        ensures
            result@ == self.config@.database_url_secret,
    {
        self.config.database_url_secret.clone()
    }

    /// The plan to verify the installed schema against, once the secret is
    /// resolved.
    pub fn plan_after_secret<F>(
        &self,
        resolved: Result<(), SecretFailure<F>>,
    ) -> (result: Result<SchemaPlan, PrepareFailure<F>>)
        ensures
            match resolved {
                Err(SecretFailure::Rejected) => result matches Err(PrepareFailure::Own(failure))
                    && failure@ == rejected_secret(self.config@.database_url_secret),
                Err(SecretFailure::Runtime(failure)) => result == Err::<
                    SchemaPlan,
                    PrepareFailure<F>,
                >(PrepareFailure::Passed(failure)),
                Ok(()) => match result {
                    Ok(plan) => {
                        &&& schema::is_schema_name(self.config@.schema)
                        &&& schema::plan_schema(plan) == self.config@.schema
                        &&& schema::plan_migrations(plan) == schema::plugin_history()
                    },
                    Err(failure) => {
                        &&& !schema::is_schema_name(self.config@.schema)
                        &&& failure matches PrepareFailure::Own(failure)
                        &&& failure@ == preparation::refused_schema(self.config@.schema)
                    },
                },
            },
    {
        match resolved {
            Err(SecretFailure::Rejected) => Err(
                PrepareFailure::Own(
                    RuntimeFailure::PluginFailure {
                        detail: text::enclose(
                            "database URL secret `",
                            self.config.database_url_secret.as_str(),
                            "` was rejected",
                        ),
                    },
                ),
            ),
            Err(SecretFailure::Runtime(failure)) => Err(PrepareFailure::Passed(failure)),
            Ok(()) => match schema::schema_plan(self.config.schema.as_str()) {
                Ok(plan) => Ok(plan),
                Err(error) => Err(
                    PrepareFailure::Own(
                        RuntimeFailure::InvalidResolvedPlan { detail: error.message() },
                    ),
                ),
            },
        }
    }
}

/// The failure of a database that is unavailable or holds another schema, in
/// the words of the PostgreSQL kit.
pub fn connection_failure(detail: String) -> (result: RuntimeFailure)
    ensures
        result@ == (RuntimeFailure::PluginFailure { detail: detail@ }),
{
    RuntimeFailure::PluginFailure { detail }
}

} // verus!
