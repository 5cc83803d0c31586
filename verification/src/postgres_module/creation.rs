//! The transaction that creates an Organization with its owner role and its
//! first owner.

use vstd::prelude::*;

use crate::contracts;
use crate::contracts::Outcome;
use crate::failure::{OrganizationError, RuntimeFailure};
use crate::ids;
use crate::postgres_module;
use crate::postgres_module::contracts::{
    CreateOrganizationError, CreateOrganizationRequest, CreateOrganizationResponse,
};
use crate::postgres_module::statements::{Action, Reply, Statement};
use crate::postgres_module::{database_runtime, runtime};
use crate::text;
use crate::transaction::Progress;

verus! {

/// The constraint that keeps the slugs of active Organizations apart.
pub const ACTIVE_SLUG_CONSTRAINT: &'static str = "organizations_active_slug_key";

/// How far a creation has come.
#[derive(Clone, Copy, Debug, PartialEq, Eq, Structural)]
pub enum CreationStage {
    Begin,
    InsertOrganization,
    InsertOwnerRole,
    InsertOwner,
    Commit,
}

/// An admitted creation, the identifiers it uses, and how far it has come.
#[derive(Clone, Debug, PartialEq, Eq)]
pub struct Creation<S = String> {
    pub name: S,
    pub slug: S,
    pub owner_subject: S,
    pub organization_id: S,
    pub owner_role_id: S,
    pub owner_membership_id: S,
    pub stage: CreationStage,
}

impl View for Creation {
    type V = Creation<Seq<char>>;

    open spec fn view(&self) -> Creation<Seq<char>> {
        Creation {
            name: self.name@,
            slug: self.slug@,
            owner_subject: self.owner_subject@,
            organization_id: self.organization_id@,
            owner_role_id: self.owner_role_id@,
            owner_membership_id: self.owner_membership_id@,
            stage: self.stage,
        }
    }
}

/// How a creation ends.
pub type CreationOutcome = Outcome<CreateOrganizationResponse, CreateOrganizationError>;

/// What the end of a creation says.
pub type CreationOutcomeView = Result<
    Result<CreateOrganizationResponse<Seq<char>>, CreateOrganizationError>,
    RuntimeFailure<Seq<char>>,
>;

/// What the progress of a creation says.
pub open spec fn progress_view(progress: Progress<Creation, CreationOutcome>) -> Progress<
    Creation<Seq<char>>,
    CreationOutcomeView,
> {
    match progress {
        Progress::Continue(creation) => Progress::Continue(creation@),
        Progress::Finish(outcome) => Progress::Finish(contracts::outcome_view(outcome)),
    }
}

impl<S> Creation<S> {
    /// What the current request to the database is called in a failure.
    pub open spec fn operation(self) -> Seq<char> {
        match self.stage {
            CreationStage::Begin => "begin organization creation"@,
            CreationStage::InsertOrganization => "insert organization"@,
            CreationStage::InsertOwnerRole => "insert owner role"@,
            CreationStage::InsertOwner => "insert owner membership"@,
            CreationStage::Commit => "commit organization creation"@,
        }
    }

    /// What the current stage asks the database for.
    pub open spec fn requested(self) -> Action<S> {
        match self.stage {
            CreationStage::Begin => Action::Begin,
            CreationStage::InsertOrganization => Action::Execute(
                Statement::InsertOrganization {
                    organization_id: self.organization_id,
                    name: self.name,
                    slug: self.slug,
                },
            ),
            CreationStage::InsertOwnerRole => Action::Execute(
                Statement::InsertOwnerRole {
                    role_id: self.owner_role_id,
                    organization_id: self.organization_id,
                },
            ),
            CreationStage::InsertOwner => Action::Execute(
                Statement::InsertMembership {
                    membership_id: self.owner_membership_id,
                    organization_id: self.organization_id,
                    subject: self.owner_subject,
                    role_id: self.owner_role_id,
                },
            ),
            CreationStage::Commit => Action::Commit,
        }
    }

    /// The same creation at another stage.
    pub open spec fn at(self, stage: CreationStage) -> Self {
        Creation { stage, ..self }
    }
}

impl Creation<Seq<char>> {
    /// Where a reply takes the creation. Any reply that the stage has no use
    /// for counts as a failure of its request.
    pub open spec fn advanced(self, reply: Reply<Seq<char>>) -> Progress<Self, CreationOutcomeView> {
        match (self.stage, reply) {
            (CreationStage::Begin, Reply::Done) => Progress::Continue(
                self.at(CreationStage::InsertOrganization),
            ),
            (CreationStage::InsertOrganization, Reply::RowsAffected(_)) => Progress::Continue(
                self.at(CreationStage::InsertOwnerRole),
            ),
            (CreationStage::InsertOwnerRole, Reply::RowsAffected(_)) => Progress::Continue(
                self.at(CreationStage::InsertOwner),
            ),
            (CreationStage::InsertOwner, Reply::RowsAffected(_)) => Progress::Continue(
                self.at(CreationStage::Commit),
            ),
            (CreationStage::Commit, Reply::Done) => Progress::Finish(
                Ok(
                    Ok(
                        CreateOrganizationResponse {
                            organization_id: self.organization_id,
                            owner_membership_id: self.owner_membership_id,
                            owner_role_id: self.owner_role_id,
                        },
                    ),
                ),
            ),
            (CreationStage::InsertOrganization, Reply::Failed { constraint }) if constraint == Some(
                ACTIVE_SLUG_CONSTRAINT@,
            ) => Progress::Finish(Ok(Err(CreateOrganizationError::SlugConflict))),
            _ => Progress::Finish(Err(postgres_module::database_failure(self.operation()))),
        }
    }
}

/// A creation that is about to begin, with the given identifiers. The name is
/// stored without the white space around it.
pub fn creation_with_ids(
    request: CreateOrganizationRequest,
    organization_id: String,
    owner_role_id: String,
    owner_membership_id: String,
) -> (result: Creation)
    ensures
        result@ == (Creation {
            name: text::trimmed(request.name@),
            slug: request.slug@,
            owner_subject: request.owner_subject@,
            organization_id: organization_id@,
            owner_role_id: owner_role_id@,
            owner_membership_id: owner_membership_id@,
            stage: CreationStage::Begin,
        }),
{
    Creation {
        name: text::trim(request.name.as_str()).to_owned(),
        slug: request.slug,
        owner_subject: request.owner_subject,
        organization_id,
        owner_role_id,
        owner_membership_id,
        stage: CreationStage::Begin,
    }
}

/// What comes of the three draws for a creation: the creation with the
/// identifiers that were drawn, or the failure of the first draw that failed.
pub fn creation_from(
    request: CreateOrganizationRequest,
    organization_id: Result<String, OrganizationError>,
    owner_role_id: Result<String, OrganizationError>,
    owner_membership_id: Result<String, OrganizationError>,
) -> (result: Result<Creation, RuntimeFailure>)
    ensures
        match (organization_id, owner_role_id, owner_membership_id) {
            (Ok(organization_id), Ok(owner_role_id), Ok(owner_membership_id)) => result matches Ok(
                creation,
            ) && creation@ == (Creation {
                name: text::trimmed(request.name@),
                slug: request.slug@,
                owner_subject: request.owner_subject@,
                organization_id: organization_id@,
                owner_role_id: owner_role_id@,
                owner_membership_id: owner_membership_id@,
                stage: CreationStage::Begin,
            }),
            (Err(error), _, _) => result matches Err(failure) && failure@
                == (RuntimeFailure::ModuleFailure { detail: error.text() }),
            (Ok(_), Err(error), _) => result matches Err(failure) && failure@
                == (RuntimeFailure::ModuleFailure { detail: error.text() }),
            (Ok(_), Ok(_), Err(error)) => result matches Err(failure) && failure@
                == (RuntimeFailure::ModuleFailure { detail: error.text() }),
        },
{
    match (organization_id, owner_role_id, owner_membership_id) {
        (Ok(organization_id), Ok(owner_role_id), Ok(owner_membership_id)) => Ok(
            creation_with_ids(request, organization_id, owner_role_id, owner_membership_id),
        ),
        (Err(error), _, _) => Err(runtime(error)),
        (Ok(_), Err(error), _) => Err(runtime(error)),
        (Ok(_), Ok(_), Err(error)) => Err(runtime(error)),
    }
}

/// A creation that is about to begin, with new identifiers. It fails only
/// where the random source does.
pub fn begin_creation(
    request: CreateOrganizationRequest,
) -> (result: Result<Creation, RuntimeFailure>)
    ensures
        match result {
            Ok(creation) => {
                &&& ids::is_generated(creation.organization_id@, "org_"@)
                &&& ids::is_generated(creation.owner_role_id@, "role_"@)
                &&& ids::is_generated(creation.owner_membership_id@, "member_"@)
                &&& creation@ == (Creation {
                    name: text::trimmed(request.name@),
                    slug: request.slug@,
                    owner_subject: request.owner_subject@,
                    organization_id: creation.organization_id@,
                    owner_role_id: creation.owner_role_id@,
                    owner_membership_id: creation.owner_membership_id@,
                    stage: CreationStage::Begin,
                })
            },
            Err(failure) => failure@ == (RuntimeFailure::ModuleFailure {
                detail: OrganizationError::Random.text(),
            }),
        },
{
    creation_from(
        request,
        ids::random_id("org_"),
        ids::random_id("role_"),
        ids::random_id("member_"),
    )
}

impl Creation {
    /// What the current stage asks the database for.
    pub fn action(&self) -> (result: Action)
        ensures
            result@ == self@.requested(),
    {
        match self.stage {
            CreationStage::Begin => Action::Begin,
            CreationStage::InsertOrganization => Action::Execute(
                Statement::InsertOrganization {
                    organization_id: self.organization_id.clone(),
                    name: self.name.clone(),
                    slug: self.slug.clone(),
                },
            ),
            CreationStage::InsertOwnerRole => Action::Execute(
                Statement::InsertOwnerRole {
                    role_id: self.owner_role_id.clone(),
                    organization_id: self.organization_id.clone(),
                },
            ),
            CreationStage::InsertOwner => Action::Execute(
                Statement::InsertMembership {
                    membership_id: self.owner_membership_id.clone(),
                    organization_id: self.organization_id.clone(),
                    subject: self.owner_subject.clone(),
                    role_id: self.owner_role_id.clone(),
                },
            ),
            CreationStage::Commit => Action::Commit,
        }
    }

    fn failed_operation(&self) -> (result: &'static str)
        ensures
            result@ == self@.operation(),
    {
        match self.stage {
            CreationStage::Begin => "begin organization creation",
            CreationStage::InsertOrganization => "insert organization",
            CreationStage::InsertOwnerRole => "insert owner role",
            CreationStage::InsertOwner => "insert owner membership",
            CreationStage::Commit => "commit organization creation",
        }
    }

    fn move_to(self, stage: CreationStage) -> (result: Progress<Creation, CreationOutcome>)
        ensures
            progress_view(result) == Progress::<Creation<Seq<char>>, CreationOutcomeView>::Continue(
                self@.at(stage),
            ),
    {
        Progress::Continue(Creation { stage, ..self })
    }

    /// Where a reply takes the creation.
    pub fn advance(self, reply: Reply) -> (result: Progress<Creation, CreationOutcome>)
        ensures
            progress_view(result) == self@.advanced(reply@),
    {
        let operation = self.failed_operation();
        match reply {
            Reply::Done => match self.stage {
                CreationStage::Begin => self.move_to(CreationStage::InsertOrganization),
                CreationStage::Commit => Progress::Finish(
                    Ok(
                        Ok(
                            CreateOrganizationResponse {
                                organization_id: self.organization_id,
                                owner_membership_id: self.owner_membership_id,
                                owner_role_id: self.owner_role_id,
                            },
                        ),
                    ),
                ),
                _ => Progress::Finish(Err(database_runtime(operation))),
            },
            Reply::RowsAffected(_) => match self.stage {
                CreationStage::InsertOrganization => self.move_to(CreationStage::InsertOwnerRole),
                CreationStage::InsertOwnerRole => self.move_to(CreationStage::InsertOwner),
                CreationStage::InsertOwner => self.move_to(CreationStage::Commit),
                _ => Progress::Finish(Err(database_runtime(operation))),
            },
            Reply::Failed { constraint: Some(constraint) } => match self.stage {
                CreationStage::InsertOrganization => if text::same(
                    constraint.as_str(),
                    ACTIVE_SLUG_CONSTRAINT,
                ) {
                    Progress::Finish(Ok(Err(CreateOrganizationError::SlugConflict)))
                } else {
                    Progress::Finish(Err(database_runtime(operation)))
                },
                _ => Progress::Finish(Err(database_runtime(operation))),
            },
            _ => Progress::Finish(Err(database_runtime(operation))),
        }
    }
}

} // verus!
