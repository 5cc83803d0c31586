//! What a Composition supplies: the owned schema, where the database URL is
//! kept, and who may create Organizations.

use vstd::prelude::*;

use crate::names;
use crate::schema;
use crate::text;

verus! {

/// The identity of the package.
pub const PACKAGE_ID: &'static str = "lenso.organization.postgres";

/// The configuration of one Module Instance.
#[derive(Clone, Debug, PartialEq, Eq)]
pub struct OrganizationConfig {
    /// The schema that the Module owns.
    pub schema: String,
    /// The reference of the secret that holds the database URL.
    pub database_url_secret: String,
    /// The Instances that may create Organizations.
    pub admin_callers: Vec<String>,
}

/// What a configuration says.
pub struct ConfigView {
    pub schema: Seq<char>,
    pub database_url_secret: Seq<char>,
    pub admin_callers: Seq<Seq<char>>,
}

impl View for OrganizationConfig {
    type V = ConfigView;

    open spec fn view(&self) -> ConfigView {
        ConfigView {
            schema: self.schema@,
            database_url_secret: self.database_url_secret@,
            admin_callers: text::contents(self.admin_callers@),
        }
    }
}

/// Why a configuration is refused.
#[derive(Clone, Copy, Debug, PartialEq, Eq, Structural)]
pub enum OrganizationConfigError {
    InvalidSchema,
    InvalidSecretReference,
    InvalidAdminCallers,
}

impl OrganizationConfigError {
    /// The message of the error.
    pub open spec fn text(self) -> Seq<char> {
        match self {
            OrganizationConfigError::InvalidSchema => "invalid owned PostgreSQL schema"@,
            OrganizationConfigError::InvalidSecretReference =>
                "invalid database URL secret reference"@,
            OrganizationConfigError::InvalidAdminCallers =>
                "at least one valid Organization Admin caller is required"@,
        }
    }

    /// The message of the error.
    pub fn message(&self) -> (result: String)
        ensures
            result@ == self.text(),
    {
        match self {
            OrganizationConfigError::InvalidSchema => "invalid owned PostgreSQL schema".to_owned(),
            OrganizationConfigError::InvalidSecretReference =>
                "invalid database URL secret reference".to_owned(),
            OrganizationConfigError::InvalidAdminCallers =>
                "at least one valid Organization Admin caller is required".to_owned(),
        }
    }
}

impl ConfigView {
    /// The first rule that the configuration breaks, if it breaks one.
    pub open spec fn error(self) -> Option<OrganizationConfigError> {
        if !schema::is_schema_name(self.schema) {
            Some(OrganizationConfigError::InvalidSchema)
        } else if !names::is_secret_reference(self.database_url_secret) {
            Some(OrganizationConfigError::InvalidSecretReference)
        } else if self.admin_callers.len() == 0 || !names::are_names(
            self.admin_callers,
            names::NAME_LIMIT as int,
        ) {
            Some(OrganizationConfigError::InvalidAdminCallers)
        } else {
            None
        }
    }
}

impl OrganizationConfig {
    /// A configuration that admits the given Admin callers.
    pub fn new(
        schema: &str,
        database_url_secret: &str,
        admin_callers: Vec<String>,
    ) -> (result: Result<Self, OrganizationConfigError>)
        ensures
            ({
                let candidate = ConfigView {
                    schema: schema@,
                    database_url_secret: database_url_secret@,
                    admin_callers: text::contents(admin_callers@),
                };
                match result {
                    Ok(config) => config@ == candidate && candidate.error() is None,
                    Err(error) => candidate.error() == Some(error),
                }
            }),
    {
        let value = Self {
            schema: schema.to_owned(),
            database_url_secret: database_url_secret.to_owned(),
            admin_callers,
        };
        match value.validate() {
            Ok(()) => Ok(value),
            Err(error) => Err(error),
        }
    }

    /// Checks the configuration, rule by rule.
    pub fn validate(&self) -> (result: Result<(), OrganizationConfigError>)
        ensures
            match result {
                Ok(()) => self@.error() is None,
                Err(error) => self@.error() == Some(error),
            },
    {
        if schema::module_schema_plan(self.schema.as_str()).is_err() {
            return Err(OrganizationConfigError::InvalidSchema);
        }
        if !names::valid_secret_reference(self.database_url_secret.as_str()) {
            return Err(OrganizationConfigError::InvalidSecretReference);
        }
        if self.admin_callers.len() == 0 || !names::valid_names(
            &self.admin_callers,
            names::NAME_LIMIT,
        ) {
            return Err(OrganizationConfigError::InvalidAdminCallers);
        }
        Ok(())
    }
}

} // verus!
