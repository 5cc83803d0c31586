//! Admission: who may call, what a request must look like, and what is
//! answered before the database is reached.

use vstd::prelude::*;

use crate::contracts;
use crate::contracts::{
    AddMemberError, AddMemberRequest, CheckMembershipError, CheckMembershipRequest,
    CreateOrganizationError, CreateOrganizationRequest, GetOrganizationError,
    GetOrganizationRequest, RemoveMemberError, RemoveMemberRequest,
};
use crate::failure::{OrganizationError, RuntimeFailure};
use crate::ids;
use crate::names;
use crate::postgres_plugin::config;
use crate::postgres_plugin::config::OrganizationConfig;
use crate::postgres_plugin::creation;
use crate::postgres_plugin::creation::{Creation, CreationOutcome, CreationOutcomeView};
use crate::postgres_plugin::membership;
use crate::postgres_plugin::membership::{
    Addition, AdditionOutcome, AdditionOutcomeView, AdditionStage, Removal, RemovalOutcome,
    RemovalOutcomeView, RemovalStage,
};
use crate::postgres_plugin::queries;
use crate::postgres_plugin::queries::{
    DirectoryOutcome, DirectoryOutcomeView, StandingOutcome, StandingOutcomeView,
};
use crate::postgres_plugin::statements::Statement;
use crate::preparation;
use crate::text;
use crate::transaction::{started, Progress};

verus! {

/// Answers the requests of other Instances.
#[derive(Clone, Debug, PartialEq, Eq)]
pub struct OrganizationProvider {
    /// The Instances that may create Organizations.
    pub admin_callers: Vec<String>,
    /// The Instances that may read the directory.
    pub directory_callers: Vec<String>,
    /// The Instances that may add and remove members.
    pub membership_admin_callers: Vec<String>,
}

/// Who a provider admits.
pub struct ProviderView {
    pub admin_callers: Seq<Seq<char>>,
    pub directory_callers: Seq<Seq<char>>,
    pub membership_admin_callers: Seq<Seq<char>>,
}

impl View for OrganizationProvider {
    type V = ProviderView;

    open spec fn view(&self) -> ProviderView {
        ProviderView {
            admin_callers: text::contents(self.admin_callers@),
            directory_callers: text::contents(self.directory_callers@),
            membership_admin_callers: text::contents(self.membership_admin_callers@),
        }
    }
}

/// What a caller is called, if it is known.
pub open spec fn caller_view(caller: Option<&str>) -> Option<Seq<char>> {
    match caller {
        Some(caller) => Some(caller@),
        None => None,
    }
}

/// Whether a caller is one of those admitted.
pub open spec fn is_admitted(callers: Seq<Seq<char>>, caller: Option<Seq<char>>) -> bool {
    caller matches Some(caller) && callers.contains(caller)
}

/// The failure of a Plugin that holds no database.
pub open spec fn unprepared() -> RuntimeFailure<Seq<char>> {
    RuntimeFailure::PluginFailure { detail: "Organization Plugin is not prepared"@ }
}

/// The failure of a Plugin that has no random source.
pub open spec fn no_randomness() -> RuntimeFailure<Seq<char>> {
    RuntimeFailure::PluginFailure { detail: OrganizationError::Random.text() }
}

/// Whether a creation request has the form that is asked for.
pub open spec fn is_creation_request(request: CreateOrganizationRequest<Seq<char>>) -> bool {
    &&& names::is_name(request.idempotency_key, names::NAME_LIMIT as int)
    &&& names::is_organization_name(request.name)
    &&& names::is_slug(request.slug)
    &&& names::is_name(request.owner_subject, names::NAME_LIMIT as int)
}

/// Whether the three texts of a membership request are names.
pub open spec fn is_membership_request(
    idempotency_key: Seq<char>,
    organization_id: Seq<char>,
    subject: Seq<char>,
) -> bool {
    &&& names::is_name(idempotency_key, names::NAME_LIMIT as int)
    &&& names::is_name(organization_id, names::NAME_LIMIT as int)
    &&& names::is_name(subject, names::NAME_LIMIT as int)
}

impl ProviderView {
    /// What a creation is answered without reaching the database, if it is.
    pub open spec fn creation_refusal(
        self,
        caller: Option<Seq<char>>,
        prepared: bool,
        request: CreateOrganizationRequest<Seq<char>>,
    ) -> Option<CreationOutcomeView> {
        if !is_admitted(self.admin_callers, caller) {
            Some(Ok(Err(CreateOrganizationError::Forbidden)))
        } else if !is_creation_request(request) {
            Some(Ok(Err(CreateOrganizationError::InvalidOrganization)))
        } else if !prepared {
            Some(Err(unprepared()))
        } else {
            None
        }
    }

    /// What an addition is answered without reaching the database, if it is.
    pub open spec fn addition_refusal(
        self,
        caller: Option<Seq<char>>,
        prepared: bool,
        request: AddMemberRequest<Seq<char>>,
    ) -> Option<AdditionOutcomeView> {
        if !is_admitted(self.membership_admin_callers, caller) {
            Some(Ok(Err(AddMemberError::Forbidden)))
        } else if !is_membership_request(
            request.idempotency_key,
            request.organization_id,
            request.subject,
        ) {
            Some(Ok(Err(AddMemberError::InvalidRequest)))
        } else if !prepared {
            Some(Err(unprepared()))
        } else {
            None
        }
    }

    /// What a removal is answered without reaching the database, if it is.
    pub open spec fn removal_refusal(
        self,
        caller: Option<Seq<char>>,
        prepared: bool,
        request: RemoveMemberRequest<Seq<char>>,
    ) -> Option<RemovalOutcomeView> {
        if !is_admitted(self.membership_admin_callers, caller) {
            Some(Ok(Err(RemoveMemberError::Forbidden)))
        } else if !is_membership_request(
            request.idempotency_key,
            request.organization_id,
            request.subject,
        ) {
            Some(Ok(Err(RemoveMemberError::InvalidRequest)))
        } else if !prepared {
            Some(Err(unprepared()))
        } else {
            None
        }
    }

    /// What a directory read is answered without reaching the database, if it
    /// is.
    pub open spec fn directory_refusal(
        self,
        caller: Option<Seq<char>>,
        prepared: bool,
        request: GetOrganizationRequest<Seq<char>>,
    ) -> Option<DirectoryOutcomeView> {
        if !is_admitted(self.directory_callers, caller) {
            Some(Ok(Err(GetOrganizationError::Forbidden)))
        } else if !names::is_name(request.organization_id, names::NAME_LIMIT as int) {
            Some(Ok(Err(GetOrganizationError::InvalidRequest)))
        } else if !prepared {
            Some(Err(unprepared()))
        } else {
            None
        }
    }
}

/// What a membership check is answered without reaching the database, if it
/// is. Any caller may check.
pub open spec fn standing_refusal(
    prepared: bool,
    request: CheckMembershipRequest<Seq<char>>,
) -> Option<StandingOutcomeView> {
    if !names::is_name(request.organization_id, names::NAME_LIMIT as int) || !names::is_name(
        request.subject,
        names::NAME_LIMIT as int,
    ) {
        Some(Ok(Err(CheckMembershipError::InvalidRequest)))
    } else if !prepared {
        Some(Err(unprepared()))
    } else {
        None
    }
}

/// The failure of a Plugin that holds no database.
fn unprepared_failure() -> (result: RuntimeFailure)
    ensures
        result@ == unprepared(),
{
    RuntimeFailure::PluginFailure { detail: "Organization Plugin is not prepared".to_owned() }
}

/// The caller, if it is one of those admitted.
fn admitted<'a>(callers: &Vec<String>, caller: Option<&'a str>) -> (result: Option<&'a str>)
    ensures
        caller_view(result) == (if is_admitted(text::contents(callers@), caller_view(caller)) {
            caller_view(caller)
        } else {
            None
        }),
{
    match caller {
        Some(name) => if text::is_among(name, callers) {
            Some(name)
        } else {
            None
        },
        None => None,
    }
}

impl OrganizationProvider {
    /// The provider that a configuration asks for.
    pub fn from_config(config: &OrganizationConfig) -> (result: Self)
        ensures
            result@ == (ProviderView {
                admin_callers: config@.admin_callers,
                directory_callers: config@.directory_callers,
                membership_admin_callers: config@.membership_admin_callers,
            }),
    {
        OrganizationProvider {
            admin_callers: text::copies(&config.admin_callers),
            directory_callers: text::copies(&config.directory_callers),
            membership_admin_callers: text::copies(&config.membership_admin_callers),
        }
    }

    /// The caller, if it may create Organizations.
    pub fn authorized_admin_caller<'a>(&self, caller: Option<&'a str>) -> (result: Option<&'a str>)
        ensures
            caller_view(result) == (if is_admitted(self@.admin_callers, caller_view(caller)) {
                caller_view(caller)
            } else {
                None
            }),
    {
        admitted(&self.admin_callers, caller)
    }

    /// The caller, if it may add and remove members.
    pub fn authorized_membership_admin_caller<'a>(
        &self,
        caller: Option<&'a str>,
    ) -> (result: Option<&'a str>)
        ensures
            caller_view(result) == (if is_admitted(
                self@.membership_admin_callers,
                caller_view(caller),
            ) {
                caller_view(caller)
            } else {
                None
            }),
    {
        admitted(&self.membership_admin_callers, caller)
    }

    /// The caller, if it may read the directory.
    pub fn authorized_directory_caller<'a>(
        &self,
        caller: Option<&'a str>,
    ) -> (result: Option<&'a str>)
        ensures
            caller_view(result) == (if is_admitted(self@.directory_callers, caller_view(caller)) {
                caller_view(caller)
            } else {
                None
            }),
    {
        admitted(&self.directory_callers, caller)
    }

    /// Admits a creation, with new identifiers. The intent is stored under the
    /// trimmed name.
    pub fn create_organization(
        &self,
        caller: Option<&str>,
        prepared: bool,
        request: CreateOrganizationRequest,
    ) -> (result: Progress<Creation, CreationOutcome>)
        ensures
            match self@.creation_refusal(caller_view(caller), prepared, request@) {
                Some(outcome) => creation::progress_view(result) == Progress::<
                    Creation<Seq<char>>,
                    CreationOutcomeView,
                >::Finish(outcome),
                None => match creation::progress_view(result) {
                    Progress::Continue(creation) => {
                        &&& ids::is_generated(creation.organization_id, "org_"@)
                        &&& ids::is_generated(creation.owner_membership_id, "member_"@)
                        &&& creation == request@.begun(
                            caller_view(caller)->0,
                            creation.organization_id,
                            creation.owner_membership_id,
                        )
                    },
                    Progress::Finish(outcome) => outcome == CreationOutcomeView::Err(
                        no_randomness(),
                    ),
                },
            },
    {
        let caller_instance = match self.authorized_admin_caller(caller) {
            Some(caller) => caller.to_owned(),
            None => return Progress::Finish(Ok(Err(CreateOrganizationError::Forbidden))),
        };
        let name = text::trim(request.name.as_str()).to_owned();
        if !names::valid_name(request.idempotency_key.as_str(), names::NAME_LIMIT)
            || !names::valid_organization_name(request.name.as_str()) || !names::valid_slug(
            request.slug.as_str(),
        ) || !names::valid_name(request.owner_subject.as_str(), names::NAME_LIMIT) {
            return Progress::Finish(Ok(Err(CreateOrganizationError::InvalidOrganization)));
        }
        if !prepared {
            return Progress::Finish(Err(unprepared_failure()));
        }
        started(creation::create_organization_in_postgres(caller_instance, request, name))
    }

    /// Admits an addition, with a new identifier.
    pub fn add_member(
        &self,
        caller: Option<&str>,
        prepared: bool,
        request: AddMemberRequest,
    ) -> (result: Progress<Addition, AdditionOutcome>)
        ensures
            match self@.addition_refusal(caller_view(caller), prepared, request@) {
                Some(outcome) => membership::addition_progress_view(result) == Progress::<
                    Addition<Seq<char>>,
                    AdditionOutcomeView,
                >::Finish(outcome),
                None => match membership::addition_progress_view(result) {
                    Progress::Continue(addition) => {
                        &&& ids::is_generated(addition.generated_membership_id, "member_"@)
                        &&& addition == (Addition {
                            caller_instance: caller_view(caller)->0,
                            idempotency_key: request.idempotency_key@,
                            organization_id: request.organization_id@,
                            subject: request.subject@,
                            generated_membership_id: addition.generated_membership_id,
                            stage: AdditionStage::Begin,
                        })
                    },
                    Progress::Finish(outcome) => outcome == AdditionOutcomeView::Err(
                        no_randomness(),
                    ),
                },
            },
    {
        let caller_instance = match self.authorized_membership_admin_caller(caller) {
            Some(caller) => caller.to_owned(),
            None => return Progress::Finish(Ok(Err(AddMemberError::Forbidden))),
        };
        if !names::valid_membership_request(
            request.idempotency_key.as_str(),
            request.organization_id.as_str(),
            request.subject.as_str(),
        ) {
            return Progress::Finish(Ok(Err(AddMemberError::InvalidRequest)));
        }
        if !prepared {
            return Progress::Finish(Err(unprepared_failure()));
        }
        started(membership::add_member_in_postgres(caller_instance, request))
    }

    /// Admits a removal.
    pub fn remove_member(
        &self,
        caller: Option<&str>,
        prepared: bool,
        request: RemoveMemberRequest,
    ) -> (result: Progress<Removal, RemovalOutcome>)
        ensures
            membership::removal_progress_view(result) == (match self@.removal_refusal(
                caller_view(caller),
                prepared,
                request@,
            ) {
                Some(outcome) => Progress::Finish(outcome),
                None => Progress::Continue(
                    Removal {
                        caller_instance: caller_view(caller)->0,
                        idempotency_key: request.idempotency_key@,
                        organization_id: request.organization_id@,
                        subject: request.subject@,
                        stage: RemovalStage::Begin,
                    },
                ),
            }),
    {
        let caller_instance = match self.authorized_membership_admin_caller(caller) {
            Some(caller) => caller.to_owned(),
            None => return Progress::Finish(Ok(Err(RemoveMemberError::Forbidden))),
        };
        if !names::valid_membership_request(
            request.idempotency_key.as_str(),
            request.organization_id.as_str(),
            request.subject.as_str(),
        ) {
            return Progress::Finish(Ok(Err(RemoveMemberError::InvalidRequest)));
        }
        if !prepared {
            return Progress::Finish(Err(unprepared_failure()));
        }
        Progress::Continue(membership::remove_member_in_postgres(caller_instance, request))
    }

    /// Admits a directory read: the statement to run, or the answer.
    pub fn get_organization(
        &self,
        caller: Option<&str>,
        prepared: bool,
        request: &GetOrganizationRequest,
    ) -> (result: Progress<Statement, DirectoryOutcome>)
        ensures
            match self@.directory_refusal(caller_view(caller), prepared, request@) {
                Some(outcome) => result is Finish && contracts::outcome_view(result->Finish_0)
                    == outcome,
                None => result is Continue && result->Continue_0@ == (Statement::GetOrganization {
                    organization_id: request.organization_id@,
                }),
            },
    {
        if self.authorized_directory_caller(caller).is_none() {
            return Progress::Finish(Ok(Err(GetOrganizationError::Forbidden)));
        }
        if !names::valid_name(request.organization_id.as_str(), names::NAME_LIMIT) {
            return Progress::Finish(Ok(Err(GetOrganizationError::InvalidRequest)));
        }
        if !prepared {
            return Progress::Finish(Err(unprepared_failure()));
        }
        Progress::Continue(queries::directory_statement(request))
    }

    /// Admits a membership check: the statement to run, or the answer.
    pub fn check_membership(
        &self,
        prepared: bool,
        request: &CheckMembershipRequest,
    ) -> (result: Progress<Statement, StandingOutcome>)
        ensures
            match standing_refusal(prepared, request@) {
                Some(outcome) => result is Finish && queries::standing_view(result->Finish_0)
                    == outcome,
                None => result is Continue && result->Continue_0@ == (Statement::CheckMembership {
                    organization_id: request.organization_id@,
                    subject: request.subject@,
                }),
            },
    {
        if !names::valid_name(request.organization_id.as_str(), names::NAME_LIMIT)
            || !names::valid_name(request.subject.as_str(), names::NAME_LIMIT) {
            return Progress::Finish(Ok(Err(CheckMembershipError::InvalidRequest)));
        }
        if !prepared {
            return Progress::Finish(Err(unprepared_failure()));
        }
        Progress::Continue(queries::standing_statement(request))
    }
}

/// Makes Plugin Instances.
#[derive(Clone, Copy, Debug, Default)]
pub struct OrganizationFactory;

impl OrganizationFactory {
    /// The identity of the package.
    pub fn package_id(&self) -> (result: &'static str)
        ensures
            result@ == config::PACKAGE_ID@,
    {
        config::PACKAGE_ID
    }

    /// The provider of an Instance and the configuration that its lifecycle
    /// keeps. `configuration` is the parsed configuration, or the message of
    /// the parser.
    pub fn instantiate(
        &self,
        entrypoint: &str,
        configuration: Result<OrganizationConfig, String>,
    ) -> (result: Result<(OrganizationProvider, OrganizationConfig), RuntimeFailure>)
        ensures
            match result {
                Ok((provider, config)) => {
                    &&& entrypoint@ == "default"@
                    &&& configuration is Ok
                    &&& configuration->Ok_0@.error() is None
                    &&& config == configuration->Ok_0
                    &&& provider@ == (ProviderView {
                        admin_callers: config@.admin_callers,
                        directory_callers: config@.directory_callers,
                        membership_admin_callers: config@.membership_admin_callers,
                    })
                },
                Err(failure) => if entrypoint@ != "default"@ {
                    failure@ == preparation::unsupported_entrypoint(entrypoint@)
                } else {
                    match configuration {
                        Err(error) => failure@ == preparation::unreadable_configuration(error@),
                        Ok(config) => config@.error() is Some && failure@
                            == RuntimeFailure::InvalidResolvedPlan {
                            detail: config@.error()->0.text(),
                        },
                    }
                },
            },
    {
        if !text::same(entrypoint, "default") {
            return Err(preparation::refuse_entrypoint(entrypoint));
        }
        let config = match configuration {
            Ok(config) => config,
            Err(error) => return Err(preparation::refuse_configuration(error.as_str())),
        };
        match config.validate() {
            Ok(()) => {
                let provider = OrganizationProvider::from_config(&config);
                Ok((provider, config))
            },
            Err(error) => Err(RuntimeFailure::InvalidResolvedPlan { detail: error.message() }),
        }
    }
}

} // verus!
