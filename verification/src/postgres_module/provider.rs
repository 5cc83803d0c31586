//! Admission and permission checks: what is answered before the database is
//! reached, and how its reply to a check is taken.

use vstd::prelude::*;

use crate::failure::{OrganizationError, RuntimeFailure};
use crate::ids;
use crate::names;
use crate::postgres_module;
use crate::postgres_module::config;
use crate::postgres_module::config::OrganizationConfig;
use crate::postgres_module::contracts::{
    CheckPermissionError, CheckPermissionRequest, CheckPermissionResponse,
    CreateOrganizationError, CreateOrganizationRequest,
};
use crate::postgres_module::creation;
use crate::postgres_module::creation::{
    Creation, CreationOutcome, CreationOutcomeView, CreationStage,
};
use crate::postgres_module::database_runtime;
use crate::postgres_module::statements::{Reply, Statement};
use crate::preparation;
use crate::text;
use crate::transaction::{started, Progress};

verus! {

/// Answers the requests of other Instances.
#[derive(Clone, Debug, PartialEq, Eq)]
pub struct OrganizationProvider {
    /// The Instances that may create Organizations.
    pub admin_callers: Vec<String>,
}

/// How a permission check ends.
pub type AccessOutcome = Result<
    Result<CheckPermissionResponse, CheckPermissionError>,
    RuntimeFailure,
>;

/// What the end of a permission check says.
pub type AccessOutcomeView = Result<
    Result<CheckPermissionResponse, CheckPermissionError>,
    RuntimeFailure<Seq<char>>,
>;

/// What the end of a permission check says.
pub open spec fn access_view(outcome: AccessOutcome) -> AccessOutcomeView {
    match outcome {
        Ok(answer) => Ok(answer),
        Err(failure) => Err(failure@),
    }
}

/// Whether a caller is one of those admitted.
pub open spec fn is_admitted(callers: Seq<Seq<char>>, caller: Option<&str>) -> bool {
    caller matches Some(caller) && callers.contains(caller@)
}

/// The failure of a Module that holds no database.
pub open spec fn unprepared() -> RuntimeFailure<Seq<char>> {
    RuntimeFailure::ModuleFailure { detail: "Organization Module is not prepared"@ }
}

/// Whether a creation request has the form that is asked for.
pub open spec fn is_creation_request(request: CreateOrganizationRequest<Seq<char>>) -> bool {
    &&& names::is_organization_name(request.name)
    &&& names::is_slug(request.slug)
    &&& names::is_name(request.owner_subject, names::NAME_LIMIT as int)
}

/// Whether a permission check has the form that is asked for.
pub open spec fn is_access_request(request: CheckPermissionRequest<Seq<char>>) -> bool {
    &&& names::is_name(request.organization_id, names::NAME_LIMIT as int)
    &&& names::is_name(request.subject, names::NAME_LIMIT as int)
    &&& names::is_permission(request.permission)
}

/// What a creation is answered without reaching the database, if it is.
pub open spec fn creation_refusal(
    admitted: bool,
    prepared: bool,
    request: CreateOrganizationRequest<Seq<char>>,
) -> Option<CreationOutcomeView> {
    if !admitted {
        Some(Ok(Err(CreateOrganizationError::Forbidden)))
    } else if !is_creation_request(request) {
        Some(Ok(Err(CreateOrganizationError::InvalidOrganization)))
    } else if !prepared {
        Some(Err(unprepared()))
    } else {
        None
    }
}

/// What a permission check is answered without reaching the database, if it
/// is. Any caller may check.
pub open spec fn access_refusal(
    prepared: bool,
    request: CheckPermissionRequest<Seq<char>>,
) -> Option<AccessOutcomeView> {
    if !is_access_request(request) {
        Some(Ok(Err(CheckPermissionError::InvalidRequest)))
    } else if !prepared {
        Some(Err(unprepared()))
    } else {
        None
    }
}

/// What the reply to a permission check says. The columns are read in the
/// order in which they are needed, and the first that is no boolean is named.
pub open spec fn access_outcome(reply: Reply<Seq<char>>) -> AccessOutcomeView {
    match reply {
        Reply::Access(row) => match (row.organization_exists, row.allowed) {
            (None, _) => Err(postgres_module::database_failure("decode organization existence"@)),
            (Some(false), _) => Ok(Err(CheckPermissionError::OrganizationNotFound)),
            (Some(true), None) => Err(
                postgres_module::database_failure("decode organization permission"@),
            ),
            (Some(true), Some(allowed)) => Ok(Ok(CheckPermissionResponse { allowed })),
        },
        _ => Err(postgres_module::database_failure("check organization permission"@)),
    }
}

/// Answers a permission check from the reply of the database.
pub fn access_answer(reply: Reply) -> (result: AccessOutcome)
    ensures
        access_view(result) == access_outcome(reply@),
{
    match reply {
        Reply::Access(row) => {
            let exists = match row.organization_exists {
                Some(exists) => exists,
                None => return Err(database_runtime("decode organization existence")),
            };
            if !exists {
                return Ok(Err(CheckPermissionError::OrganizationNotFound));
            }
            match row.allowed {
                Some(allowed) => Ok(Ok(CheckPermissionResponse { allowed })),
                None => Err(database_runtime("decode organization permission")),
            }
        },
        _ => Err(database_runtime("check organization permission")),
    }
}

/// The failure of a Module that holds no database.
fn unprepared_failure() -> (result: RuntimeFailure)
    ensures
        result@ == unprepared(),
{
    RuntimeFailure::ModuleFailure { detail: "Organization Module is not prepared".to_owned() }
}

impl OrganizationProvider {
    /// Whether the caller may create Organizations.
    pub fn admin_authorized(&self, caller: Option<&str>) -> (result: bool)
        ensures
            result == is_admitted(text::contents(self.admin_callers@), caller),
    {
        match caller {
            Some(caller) => text::is_among(caller, &self.admin_callers),
            None => false,
        }
    }

    /// Admits a creation, with new identifiers.
    pub fn create_organization(
        &self,
        caller: Option<&str>,
        prepared: bool,
        request: CreateOrganizationRequest,
    ) -> (result: Progress<Creation, CreationOutcome>)
        ensures
            match creation_refusal(
                is_admitted(text::contents(self.admin_callers@), caller),
                prepared,
                request@,
            ) {
                Some(outcome) => creation::progress_view(result) == Progress::<
                    Creation<Seq<char>>,
                    CreationOutcomeView,
                >::Finish(outcome),
                None => match creation::progress_view(result) {
                    Progress::Continue(creation) => {
                        &&& ids::is_generated(creation.organization_id, "org_"@)
                        &&& ids::is_generated(creation.owner_role_id, "role_"@)
                        &&& ids::is_generated(creation.owner_membership_id, "member_"@)
                        &&& creation == (Creation {
                            name: text::trimmed(request.name@),
                            slug: request.slug@,
                            owner_subject: request.owner_subject@,
                            organization_id: creation.organization_id,
                            owner_role_id: creation.owner_role_id,
                            owner_membership_id: creation.owner_membership_id,
                            stage: CreationStage::Begin,
                        })
                    },
                    Progress::Finish(outcome) => outcome == CreationOutcomeView::Err(
                        RuntimeFailure::ModuleFailure { detail: OrganizationError::Random.text() },
                    ),
                },
            },
    {
        if !self.admin_authorized(caller) {
            return Progress::Finish(Ok(Err(CreateOrganizationError::Forbidden)));
        }
        if !names::valid_organization_name(request.name.as_str()) || !names::valid_slug(
            request.slug.as_str(),
        ) || !names::valid_name(request.owner_subject.as_str(), names::NAME_LIMIT) {
            return Progress::Finish(Ok(Err(CreateOrganizationError::InvalidOrganization)));
        }
        if !prepared {
            return Progress::Finish(Err(unprepared_failure()));
        }
        started(creation::begin_creation(request))
    }

    /// Admits a permission check: the statement to run, or the answer.
    pub fn check_permission(
        &self,
        prepared: bool,
        request: CheckPermissionRequest,
    ) -> (result: Progress<Statement, AccessOutcome>)
        ensures
            match access_refusal(prepared, request@) {
                Some(outcome) => result is Finish && access_view(result->Finish_0) == outcome,
                None => result is Continue && result->Continue_0@ == (Statement::CheckPermission {
                    organization_id: request.organization_id@,
                    subject: request.subject@,
                    permission: request.permission@,
                }),
            },
    {
        if !names::valid_name(request.organization_id.as_str(), names::NAME_LIMIT)
            || !names::valid_name(request.subject.as_str(), names::NAME_LIMIT)
            || !names::valid_permission(request.permission.as_str()) {
            return Progress::Finish(Ok(Err(CheckPermissionError::InvalidRequest)));
        }
        if !prepared {
            return Progress::Finish(Err(unprepared_failure()));
        }
        Progress::Continue(
            Statement::CheckPermission {
                organization_id: request.organization_id,
                subject: request.subject,
                permission: request.permission,
            },
        )
    }
}

/// Makes Module Instances.
#[derive(Clone, Copy, Debug, Default)]
pub struct OrganizationFactory;

impl OrganizationFactory {
    /// The identity of the package.
    pub fn package_id(&self) -> (result: &'static str)
        ensures
            result@ == config::PACKAGE_ID@,
    {
        config::PACKAGE_ID
    }

    /// The provider of an Instance and the configuration that its lifecycle
    /// keeps. `configuration` is the parsed configuration, or the message of
    /// the parser.
    pub fn instantiate(
        &self,
        entrypoint: &str,
        configuration: Result<OrganizationConfig, String>,
    ) -> (result: Result<(OrganizationProvider, OrganizationConfig), RuntimeFailure>)
        ensures
            match result {
                Ok((provider, config)) => {
                    &&& entrypoint@ == "default"@
                    &&& configuration is Ok
                    &&& configuration->Ok_0@.error() is None
                    &&& config == configuration->Ok_0
                    &&& text::contents(provider.admin_callers@) == config@.admin_callers
                },
                Err(failure) => if entrypoint@ != "default"@ {
                    failure@ == preparation::unsupported_entrypoint(entrypoint@)
                } else {
                    match configuration {
                        Err(error) => failure@ == preparation::unreadable_configuration(error@),
                        Ok(config) => config@.error() is Some && failure@
                            == RuntimeFailure::InvalidResolvedPlan {
                            detail: config@.error()->0.text(),
                        },
                    }
                },
            },
    {
        if !text::same(entrypoint, "default") {
            return Err(preparation::refuse_entrypoint(entrypoint));
        }
        let config = match configuration {
            Ok(config) => config,
            Err(error) => return Err(preparation::refuse_configuration(error.as_str())),
        };
        match config.validate() {
            Ok(()) => {
                let provider = OrganizationProvider {
                    admin_callers: text::copies(&config.admin_callers),
                };
                Ok((provider, config))
            },
            Err(error) => Err(RuntimeFailure::InvalidResolvedPlan { detail: error.message() }),
        }
    }
}

} // verus!
