//! The transaction that creates an Organization with its first owner.

use vstd::prelude::*;

use crate::contracts;
use crate::contracts::{
    CreateOrganizationError, CreateOrganizationRequest, CreateOrganizationResponse, Outcome,
};
use crate::failure::{OrganizationError, RuntimeFailure};
use crate::ids;
use crate::postgres_plugin;
use crate::postgres_plugin::{database_runtime, runtime};
use crate::postgres_plugin::statements::{Action, CreationRow, Reply, Statement};
use crate::text;
use crate::transaction::Progress;

verus! {

/// The constraint that keeps the slugs of active Organizations apart.
pub const ACTIVE_SLUG_CONSTRAINT: &'static str = "organizations_active_slug_key";

/// How far a creation has come.
#[derive(Clone, Debug, PartialEq, Eq)]
pub enum CreationStage<S = String> {
    Begin,
    Reserve,
    ReadReplay,
    CommitReplay { organization_id: S, owner_membership_id: S },
    InsertOrganization,
    InsertOwner,
    Commit,
}

/// An admitted creation, the identifiers it would use, and how far it has
/// come.
#[derive(Clone, Debug, PartialEq, Eq)]
pub struct Creation<S = String> {
    pub caller_instance: S,
    pub idempotency_key: S,
    pub name: S,
    pub slug: S,
    pub owner_subject: S,
    pub organization_id: S,
    pub owner_membership_id: S,
    pub stage: CreationStage<S>,
}

impl View for CreationStage {
    type V = CreationStage<Seq<char>>;

    open spec fn view(&self) -> CreationStage<Seq<char>> {
        match *self {
            CreationStage::Begin => CreationStage::Begin,
            CreationStage::Reserve => CreationStage::Reserve,
            CreationStage::ReadReplay => CreationStage::ReadReplay,
            CreationStage::CommitReplay { organization_id, owner_membership_id } =>
                CreationStage::CommitReplay {
                    organization_id: organization_id@,
                    owner_membership_id: owner_membership_id@,
                },
            CreationStage::InsertOrganization => CreationStage::InsertOrganization,
            CreationStage::InsertOwner => CreationStage::InsertOwner,
            CreationStage::Commit => CreationStage::Commit,
        }
    }
}

impl View for Creation {
    type V = Creation<Seq<char>>;

    open spec fn view(&self) -> Creation<Seq<char>> {
        Creation {
            caller_instance: self.caller_instance@,
            idempotency_key: self.idempotency_key@,
            name: self.name@,
            slug: self.slug@,
            owner_subject: self.owner_subject@,
            organization_id: self.organization_id@,
            owner_membership_id: self.owner_membership_id@,
            stage: self.stage@,
        }
    }
}

/// How a creation ends.
pub type CreationOutcome = Outcome<CreateOrganizationResponse, CreateOrganizationError>;

/// What the end of a creation says.
pub type CreationOutcomeView = Result<
    Result<CreateOrganizationResponse<Seq<char>>, CreateOrganizationError>,
    RuntimeFailure<Seq<char>>,
>;

/// What the progress of a creation says.
pub open spec fn progress_view(progress: Progress<Creation, CreationOutcome>) -> Progress<
    Creation<Seq<char>>,
    CreationOutcomeView,
> {
    match progress {
        Progress::Continue(creation) => Progress::Continue(creation@),
        Progress::Finish(outcome) => Progress::Finish(contracts::outcome_view(outcome)),
    }
}

/// What the stored creation answers to a request with its idempotency key: the
/// identifiers it kept if the intent is the same, a conflict if it is not.
pub open spec fn replay_answer(
    row: CreationRow<Seq<char>>,
    name: Seq<char>,
    slug: Seq<char>,
    owner_subject: Seq<char>,
) -> Result<CreateOrganizationResponse<Seq<char>>, CreateOrganizationError> {
    if row.name == name && row.slug == slug && row.owner_subject == owner_subject {
        Ok(
            CreateOrganizationResponse {
                created: false,
                organization_id: row.organization_id,
                owner_membership_id: row.owner_membership_id,
            },
        )
    } else {
        Err(CreateOrganizationError::IdempotencyConflict)
    }
}

/// Answers a request from the stored creation with its idempotency key.
pub fn read_creation_replay(
    row: CreationRow,
    name: &str,
    slug: &str,
    owner_subject: &str,
) -> (result: Result<CreateOrganizationResponse, CreateOrganizationError>)
    ensures
        (match result {
            Ok(answer) => Ok(answer@),
            Err(error) => Err(error),
        }) == replay_answer(row@, name@, slug@, owner_subject@),
{
    if !text::same(row.name.as_str(), name) || !text::same(row.slug.as_str(), slug) || !text::same(
        row.owner_subject.as_str(),
        owner_subject,
    ) {
        return Err(CreateOrganizationError::IdempotencyConflict);
    }
    Ok(
        CreateOrganizationResponse {
            created: false,
            organization_id: row.organization_id,
            owner_membership_id: row.owner_membership_id,
        },
    )
}

impl<S> Creation<S> {
    /// What the current request to the database is called in a failure.
    pub open spec fn operation(self) -> Seq<char> {
        match self.stage {
            CreationStage::Begin => "begin organization creation"@,
            CreationStage::Reserve => "reserve organization creation"@,
            CreationStage::ReadReplay => "read organization creation replay"@,
            CreationStage::CommitReplay { .. } => "commit organization creation replay"@,
            CreationStage::InsertOrganization => "insert organization"@,
            CreationStage::InsertOwner => "insert owner membership"@,
            CreationStage::Commit => "commit organization creation"@,
        }
    }

    /// What the current stage asks the database for.
    pub open spec fn requested(self) -> Action<S> {
        match self.stage {
            CreationStage::Begin => Action::Begin,
            CreationStage::Reserve => Action::Execute(
                Statement::ReserveCreation {
                    caller_instance: self.caller_instance,
                    idempotency_key: self.idempotency_key,
                    name: self.name,
                    slug: self.slug,
                    owner_subject: self.owner_subject,
                    organization_id: self.organization_id,
                    owner_membership_id: self.owner_membership_id,
                },
            ),
            CreationStage::ReadReplay => Action::Execute(
                Statement::ReadCreation {
                    caller_instance: self.caller_instance,
                    idempotency_key: self.idempotency_key,
                },
            ),
            CreationStage::InsertOrganization => Action::Execute(
                Statement::InsertOrganization {
                    organization_id: self.organization_id,
                    name: self.name,
                    slug: self.slug,
                },
            ),
            CreationStage::InsertOwner => Action::Execute(
                Statement::InsertOwner {
                    membership_id: self.owner_membership_id,
                    organization_id: self.organization_id,
                    subject: self.owner_subject,
                },
            ),
            CreationStage::CommitReplay { .. } => Action::Commit,
            CreationStage::Commit => Action::Commit,
        }
    }

    /// The same creation at another stage.
    pub open spec fn at(self, stage: CreationStage<S>) -> Self {
        Creation { stage, ..self }
    }
}

impl Creation<Seq<char>> {
    /// Where a reply takes the creation. Any reply that the stage has no use
    /// for counts as a failure of its request.
    pub open spec fn advanced(self, reply: Reply<Seq<char>>) -> Progress<Self, CreationOutcomeView> {
        match (self.stage, reply) {
            (CreationStage::Begin, Reply::Done) => Progress::Continue(
                self.at(CreationStage::Reserve),
            ),
            (CreationStage::Reserve, Reply::RowsAffected(count)) => Progress::Continue(
                self.at(
                    if count == 1 {
                        CreationStage::InsertOrganization
                    } else {
                        CreationStage::ReadReplay
                    },
                ),
            ),
            (CreationStage::ReadReplay, Reply::Creation(row)) => match replay_answer(
                row,
                self.name,
                self.slug,
                self.owner_subject,
            ) {
                Ok(answer) => Progress::Continue(
                    self.at(
                        CreationStage::CommitReplay {
                            organization_id: answer.organization_id,
                            owner_membership_id: answer.owner_membership_id,
                        },
                    ),
                ),
                Err(error) => Progress::Finish(Ok(Err(error))),
            },
            (
                CreationStage::CommitReplay { organization_id, owner_membership_id },
                Reply::Done,
            ) => Progress::Finish(
                Ok(
                    Ok(
                        CreateOrganizationResponse {
                            created: false,
                            organization_id,
                            owner_membership_id,
                        },
                    ),
                ),
            ),
            (CreationStage::InsertOrganization, Reply::RowsAffected(_)) => Progress::Continue(
                self.at(CreationStage::InsertOwner),
            ),
            (CreationStage::InsertOwner, Reply::RowsAffected(_)) => Progress::Continue(
                self.at(CreationStage::Commit),
            ),
            (CreationStage::Commit, Reply::Done) => Progress::Finish(
                Ok(
                    Ok(
                        CreateOrganizationResponse {
                            created: true,
                            organization_id: self.organization_id,
                            owner_membership_id: self.owner_membership_id,
                        },
                    ),
                ),
            ),
            (CreationStage::InsertOrganization, Reply::Failed { constraint }) if constraint == Some(
                ACTIVE_SLUG_CONSTRAINT@,
            ) => Progress::Finish(Ok(Err(CreateOrganizationError::SlugConflict))),
            _ => Progress::Finish(Err(postgres_plugin::database_failure(self.operation()))),
        }
    }
}

impl CreateOrganizationRequest<Seq<char>> {
    /// The creation that an admitted request begins. The intent is stored
    /// under the trimmed name.
    pub open spec fn begun(
        self,
        caller_instance: Seq<char>,
        organization_id: Seq<char>,
        owner_membership_id: Seq<char>,
    ) -> Creation<Seq<char>> {
        Creation {
            caller_instance,
            idempotency_key: self.idempotency_key,
            name: text::trimmed(self.name),
            slug: self.slug,
            owner_subject: self.owner_subject,
            organization_id,
            owner_membership_id,
            stage: CreationStage::Begin,
        }
    }
}

/// A creation that is about to begin, with the given identifiers.
pub fn creation_with_ids(
    caller_instance: String,
    request: CreateOrganizationRequest,
    name: String,
    organization_id: String,
    owner_membership_id: String,
) -> (result: Creation)
    ensures
        result@ == (Creation {
            caller_instance: caller_instance@,
            idempotency_key: request.idempotency_key@,
            name: name@,
            slug: request.slug@,
            owner_subject: request.owner_subject@,
            organization_id: organization_id@,
            owner_membership_id: owner_membership_id@,
            stage: CreationStage::Begin,
        }),
{
    Creation {
        caller_instance,
        idempotency_key: request.idempotency_key,
        name,
        slug: request.slug,
        owner_subject: request.owner_subject,
        organization_id,
        owner_membership_id,
        stage: CreationStage::Begin,
    }
}

/// What comes of the two draws for a creation: the creation with the
/// identifiers that were drawn, or the failure of the first draw that failed.
pub fn creation_from(
    caller_instance: String,
    request: CreateOrganizationRequest,
    name: String,
    organization_id: Result<String, OrganizationError>,
    owner_membership_id: Result<String, OrganizationError>,
) -> (result: Result<Creation, RuntimeFailure>)
    ensures
        match (organization_id, owner_membership_id) {
            (Ok(organization_id), Ok(owner_membership_id)) => result matches Ok(creation)
                && creation@ == (Creation {
                caller_instance: caller_instance@,
                idempotency_key: request.idempotency_key@,
                name: name@,
                slug: request.slug@,
                owner_subject: request.owner_subject@,
                organization_id: organization_id@,
                owner_membership_id: owner_membership_id@,
                stage: CreationStage::Begin,
            }),
            (Err(error), _) => result matches Err(failure) && failure@
                == (RuntimeFailure::PluginFailure { detail: error.text() }),
            (Ok(_), Err(error)) => result matches Err(failure) && failure@
                == (RuntimeFailure::PluginFailure { detail: error.text() }),
        },
{
    match (organization_id, owner_membership_id) {
        (Ok(organization_id), Ok(owner_membership_id)) => Ok(
            creation_with_ids(caller_instance, request, name, organization_id, owner_membership_id),
        ),
        (Err(error), _) => Err(runtime(error)),
        (Ok(_), Err(error)) => Err(runtime(error)),
    }
}

/// A creation that is about to begin, with new identifiers. It fails only
/// where the random source does.
pub fn create_organization_in_postgres(
    caller_instance: String,
    request: CreateOrganizationRequest,
    name: String,
) -> (result: Result<Creation, RuntimeFailure>)
    ensures
        match result {
            Ok(creation) => {
                &&& ids::is_generated(creation.organization_id@, "org_"@)
                &&& ids::is_generated(creation.owner_membership_id@, "member_"@)
                &&& creation@ == (Creation {
                    caller_instance: caller_instance@,
                    idempotency_key: request.idempotency_key@,
                    name: name@,
                    slug: request.slug@,
                    owner_subject: request.owner_subject@,
                    organization_id: creation.organization_id@,
                    owner_membership_id: creation.owner_membership_id@,
                    stage: CreationStage::Begin,
                })
            },
            Err(failure) => failure@ == (RuntimeFailure::PluginFailure {
                detail: OrganizationError::Random.text(),
            }),
        },
{
    creation_from(
        caller_instance,
        request,
        name,
        ids::random_id("org_"),
        ids::random_id("member_"),
    )
}

impl Creation {
    /// What the current stage asks the database for.
    pub fn action(&self) -> (result: Action)
        ensures
            result@ == self@.requested(),
    {
        match &self.stage {
            CreationStage::Begin => Action::Begin,
            CreationStage::Reserve => Action::Execute(
                Statement::ReserveCreation {
                    caller_instance: self.caller_instance.clone(),
                    idempotency_key: self.idempotency_key.clone(),
                    name: self.name.clone(),
                    slug: self.slug.clone(),
                    owner_subject: self.owner_subject.clone(),
                    organization_id: self.organization_id.clone(),
                    owner_membership_id: self.owner_membership_id.clone(),
                },
            ),
            CreationStage::ReadReplay => Action::Execute(
                Statement::ReadCreation {
                    caller_instance: self.caller_instance.clone(),
                    idempotency_key: self.idempotency_key.clone(),
                },
            ),
            CreationStage::InsertOrganization => Action::Execute(
                Statement::InsertOrganization {
                    organization_id: self.organization_id.clone(),
                    name: self.name.clone(),
                    slug: self.slug.clone(),
                },
            ),
            CreationStage::InsertOwner => Action::Execute(
                Statement::InsertOwner {
                    membership_id: self.owner_membership_id.clone(),
                    organization_id: self.organization_id.clone(),
                    subject: self.owner_subject.clone(),
                },
            ),
            CreationStage::CommitReplay { .. } => Action::Commit,
            CreationStage::Commit => Action::Commit,
        }
    }

    fn failed_operation(&self) -> (result: &'static str)
        ensures
            result@ == self@.operation(),
    {
        match &self.stage {
            CreationStage::Begin => "begin organization creation",
            CreationStage::Reserve => "reserve organization creation",
            CreationStage::ReadReplay => "read organization creation replay",
            CreationStage::CommitReplay { .. } => "commit organization creation replay",
            CreationStage::InsertOrganization => "insert organization",
            CreationStage::InsertOwner => "insert owner membership",
            CreationStage::Commit => "commit organization creation",
        }
    }

    fn move_to(self, stage: CreationStage) -> (result: Progress<Creation, CreationOutcome>)
        ensures
            progress_view(result) == Progress::<Creation<Seq<char>>, CreationOutcomeView>::Continue(
                self@.at(stage@),
            ),
    {
        Progress::Continue(Creation { stage, ..self })
    }

    /// Where a reply takes the creation.
    pub fn advance(self, reply: Reply) -> (result: Progress<Creation, CreationOutcome>)
        ensures
            progress_view(result) == self@.advanced(reply@),
    {
        let operation = self.failed_operation();
        match reply {
            Reply::Done => match self.stage {
                CreationStage::Begin => self.move_to(CreationStage::Reserve),
                CreationStage::CommitReplay { organization_id, owner_membership_id } =>
                    Progress::Finish(
                        Ok(
                            Ok(
                                CreateOrganizationResponse {
                                    created: false,
                                    organization_id,
                                    owner_membership_id,
                                },
                            ),
                        ),
                    ),
                CreationStage::Commit => Progress::Finish(
                    Ok(
                        Ok(
                            CreateOrganizationResponse {
                                created: true,
                                organization_id: self.organization_id,
                                owner_membership_id: self.owner_membership_id,
                            },
                        ),
                    ),
                ),
                _ => Progress::Finish(Err(database_runtime(operation))),
            },
            Reply::RowsAffected(count) => match self.stage {
                CreationStage::Reserve => if count == 1 {
                    self.move_to(CreationStage::InsertOrganization)
                } else {
                    self.move_to(CreationStage::ReadReplay)
                },
                CreationStage::InsertOrganization => self.move_to(CreationStage::InsertOwner),
                CreationStage::InsertOwner => self.move_to(CreationStage::Commit),
                _ => Progress::Finish(Err(database_runtime(operation))),
            },
            Reply::Creation(row) => match self.stage {
                CreationStage::ReadReplay => match read_creation_replay(
                    row,
                    self.name.as_str(),
                    self.slug.as_str(),
                    self.owner_subject.as_str(),
                ) {
                    Ok(answer) => self.move_to(
                        CreationStage::CommitReplay {
                            organization_id: answer.organization_id,
                            owner_membership_id: answer.owner_membership_id,
                        },
                    ),
                    Err(error) => Progress::Finish(Ok(Err(error))),
                },
                _ => Progress::Finish(Err(database_runtime(operation))),
            },
            Reply::Failed { constraint: Some(constraint) } => match self.stage {
                CreationStage::InsertOrganization => if text::same(
                    constraint.as_str(),
                    ACTIVE_SLUG_CONSTRAINT,
                ) {
                    Progress::Finish(Ok(Err(CreateOrganizationError::SlugConflict)))
                } else {
                    Progress::Finish(Err(database_runtime(operation)))
                },
                _ => Progress::Finish(Err(database_runtime(operation))),
            },
            _ => Progress::Finish(Err(database_runtime(operation))),
        }
    }
}

} // verus!
