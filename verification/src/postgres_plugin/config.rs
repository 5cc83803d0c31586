//! What a Composition supplies: the owned schema, where the database URL is
//! kept, and who may call.

use vstd::prelude::*;

use crate::names;
use crate::schema;
use crate::text;

verus! {

/// The identity of the package.
pub const PACKAGE_ID: &'static str = "lenso.organization.postgres";

/// The configuration of one Plugin Instance.
#[derive(Clone, Debug, PartialEq, Eq)]
pub struct OrganizationConfig {
    /// The schema that the Plugin owns.
    pub schema: String,
    /// The reference of the secret that holds the database URL.
    pub database_url_secret: String,
    /// The Instances that may create Organizations.
    pub admin_callers: Vec<String>,
    /// The Instances that may read the directory.
    pub directory_callers: Vec<String>,
    /// The Instances that may add and remove members.
    pub membership_admin_callers: Vec<String>,
}

/// What a configuration says.
pub struct ConfigView {
    pub schema: Seq<char>,
    pub database_url_secret: Seq<char>,
    pub admin_callers: Seq<Seq<char>>,
    pub directory_callers: Seq<Seq<char>>,
    pub membership_admin_callers: Seq<Seq<char>>,
}

impl View for OrganizationConfig {
    type V = ConfigView;

    open spec fn view(&self) -> ConfigView {
        ConfigView {
            schema: self.schema@,
            database_url_secret: self.database_url_secret@,
            admin_callers: text::contents(self.admin_callers@),
            directory_callers: text::contents(self.directory_callers@),
            membership_admin_callers: text::contents(self.membership_admin_callers@),
        }
    }
}

/// Why a configuration is refused.
#[derive(Clone, Copy, Debug, PartialEq, Eq, Structural)]
pub enum OrganizationConfigError {
    InvalidSchema,
    InvalidSecretReference,
    InvalidAdminCallers,
    InvalidDirectoryCallers,
    InvalidMembershipAdminCallers,
}

impl OrganizationConfigError {
    /// The message of the error.
    pub open spec fn text(self) -> Seq<char> {
        match self {
            OrganizationConfigError::InvalidSchema => "invalid owned PostgreSQL schema"@,
            OrganizationConfigError::InvalidSecretReference =>
                "invalid database URL secret reference"@,
            OrganizationConfigError::InvalidAdminCallers =>
                "at least one valid Organization Admin caller is required"@,
            OrganizationConfigError::InvalidDirectoryCallers =>
                "every Organization Directory caller must be a valid Instance key"@,
            OrganizationConfigError::InvalidMembershipAdminCallers =>
                "every Organization Membership Admin caller must be a valid Instance key"@,
        }
    }

    /// The message of the error.
    pub fn message(&self) -> (result: String)
        ensures
            result@ == self.text(),
    {
        match self {
            OrganizationConfigError::InvalidSchema => "invalid owned PostgreSQL schema".to_owned(),
            OrganizationConfigError::InvalidSecretReference =>
                "invalid database URL secret reference".to_owned(),
            OrganizationConfigError::InvalidAdminCallers =>
                "at least one valid Organization Admin caller is required".to_owned(),
            OrganizationConfigError::InvalidDirectoryCallers =>
                "every Organization Directory caller must be a valid Instance key".to_owned(),
            OrganizationConfigError::InvalidMembershipAdminCallers =>
                "every Organization Membership Admin caller must be a valid Instance key".to_owned(),
        }
    }
}

impl ConfigView {
    pub open spec fn admin_callers_are_valid(self) -> bool {
        &&& self.admin_callers.len() > 0
        &&& names::are_names(self.admin_callers, names::NAME_LIMIT as int)
    }

    /// The first rule that the configuration breaks, if it breaks one.
    pub open spec fn error(self) -> Option<OrganizationConfigError> {
        if !schema::is_schema_name(self.schema) {
            Some(OrganizationConfigError::InvalidSchema)
        } else if !names::is_secret_reference(self.database_url_secret) {
            Some(OrganizationConfigError::InvalidSecretReference)
        } else if !self.admin_callers_are_valid() {
            Some(OrganizationConfigError::InvalidAdminCallers)
        } else if !names::are_names(self.directory_callers, names::NAME_LIMIT as int) {
            Some(OrganizationConfigError::InvalidDirectoryCallers)
        } else if !names::are_names(self.membership_admin_callers, names::NAME_LIMIT as int) {
            Some(OrganizationConfigError::InvalidMembershipAdminCallers)
        } else {
            None
        }
    }
}

impl OrganizationConfig {
    /// A configuration that admits nobody but the given Admin callers.
    pub fn new(
        schema: &str,
        database_url_secret: &str,
        admin_callers: Vec<String>,
    ) -> (result: Result<Self, OrganizationConfigError>)
        ensures
            ({
                let candidate = ConfigView {
                    schema: schema@,
                    database_url_secret: database_url_secret@,
                    admin_callers: text::contents(admin_callers@),
                    directory_callers: Seq::empty(),
                    membership_admin_callers: Seq::empty(),
                };
                match result {
                    Ok(config) => config@ == candidate && candidate.error() is None,
                    Err(error) => candidate.error() == Some(error),
                }
            }),
    {
        let value = Self {
            schema: schema.to_owned(),
            database_url_secret: database_url_secret.to_owned(),
            admin_callers,
            directory_callers: Vec::new(),
            membership_admin_callers: Vec::new(),
        };
        proof {
            assert(value@.directory_callers == Seq::<Seq<char>>::empty());
            assert(value@.membership_admin_callers == Seq::<Seq<char>>::empty());
        }
        match value.validate() {
            Ok(()) => Ok(value),
            Err(error) => Err(error),
        }
    }

    /// The same configuration with these Membership Admin callers.
    pub fn with_membership_admin_callers(
        self,
        membership_admin_callers: Vec<String>,
    ) -> (result: Result<Self, OrganizationConfigError>)
        ensures
            ({
                let candidate = ConfigView {
                    membership_admin_callers: text::contents(membership_admin_callers@),
                    ..self@
                };
                match result {
                    Ok(config) => config@ == candidate && candidate.error() is None,
                    Err(error) => candidate.error() == Some(error),
                }
            }),
    {
        let value = Self { membership_admin_callers, ..self };
        match value.validate() {
            Ok(()) => Ok(value),
            Err(error) => Err(error),
        }
    }

    /// The same configuration with these Directory callers.
    pub fn with_directory_callers(
        self,
        directory_callers: Vec<String>,
    ) -> (result: Result<Self, OrganizationConfigError>)
        ensures
            ({
                let candidate = ConfigView {
                    directory_callers: text::contents(directory_callers@),
                    ..self@
                };
                match result {
                    Ok(config) => config@ == candidate && candidate.error() is None,
                    Err(error) => candidate.error() == Some(error),
                }
            }),
    {
        let value = Self { directory_callers, ..self };
        match value.validate() {
            Ok(()) => Ok(value),
            Err(error) => Err(error),
        }
    }

    /// Reports the first rule that the configuration breaks.
    pub fn validate(&self) -> (result: Result<(), OrganizationConfigError>)
        ensures
            match result {
                Ok(()) => self@.error() is None,
                Err(error) => self@.error() == Some(error),
            },
    {
        if schema::schema_plan(self.schema.as_str()).is_err() {
            return Err(OrganizationConfigError::InvalidSchema);
        }
        if !names::valid_secret_reference(self.database_url_secret.as_str()) {
            return Err(OrganizationConfigError::InvalidSecretReference);
        }
        if self.admin_callers.len() == 0 || !names::valid_names(
            &self.admin_callers,
            names::NAME_LIMIT,
        ) {
            return Err(OrganizationConfigError::InvalidAdminCallers);
        }
        if !names::valid_names(&self.directory_callers, names::NAME_LIMIT) {
            return Err(OrganizationConfigError::InvalidDirectoryCallers);
        }
        if !names::valid_names(&self.membership_admin_callers, names::NAME_LIMIT) {
            return Err(OrganizationConfigError::InvalidMembershipAdminCallers);
        }
        Ok(())
    }
}

} // verus!
