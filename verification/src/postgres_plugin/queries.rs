//! The reads that run outside a transaction.

use vstd::prelude::*;

use crate::contracts;
use crate::contracts::{
    CheckMembershipError, CheckMembershipRequest, CheckMembershipResponse, GetOrganizationError,
    GetOrganizationRequest, GetOrganizationResponse, Outcome,
};
use crate::failure::RuntimeFailure;
use crate::notation;
use crate::postgres_plugin;
use crate::postgres_plugin::database_runtime;
use crate::postgres_plugin::statements::{Reply, Statement};

verus! {

/// How a directory read ends.
pub type DirectoryOutcome = Outcome<GetOrganizationResponse, GetOrganizationError>;

/// What the end of a directory read says.
pub type DirectoryOutcomeView = Result<
    Result<GetOrganizationResponse<Seq<char>>, GetOrganizationError>,
    RuntimeFailure<Seq<char>>,
>;

/// How a membership check ends.
pub type StandingOutcome = Result<
    Result<CheckMembershipResponse, CheckMembershipError>,
    RuntimeFailure,
>;

/// What the end of a membership check says.
pub type StandingOutcomeView = Result<
    Result<CheckMembershipResponse, CheckMembershipError>,
    RuntimeFailure<Seq<char>>,
>;

/// The statement that reads an Organization's directory entry.
pub fn directory_statement(request: &GetOrganizationRequest) -> (result: Statement)
    ensures
        result@ == (Statement::GetOrganization { organization_id: request.organization_id@ }),
{
    Statement::GetOrganization { organization_id: request.organization_id.clone() }
}

/// What the reply to a directory read says of the Organization.
pub open spec fn directory_outcome(
    organization_id: Seq<char>,
    reply: Reply<Seq<char>>,
) -> DirectoryOutcomeView {
    match reply {
        Reply::Directory(Some(row)) => Ok(
            Ok(
                GetOrganizationResponse {
                    active: row.active,
                    name: row.name,
                    organization_id,
                    revision: notation::decimal(row.revision as int),
                    slug: row.slug,
                },
            ),
        ),
        Reply::Directory(None) => Ok(Err(GetOrganizationError::OrganizationNotFound)),
        _ => Err(postgres_plugin::database_failure("get organization directory entry"@)),
    }
}

/// Answers a directory read from the reply of the database.
pub fn directory_answer(request: GetOrganizationRequest, reply: Reply) -> (result: DirectoryOutcome)
    ensures
        contracts::outcome_view(result) == directory_outcome(request.organization_id@, reply@),
{
    match reply {
        Reply::Directory(Some(row)) => Ok(
            Ok(
                GetOrganizationResponse {
                    active: row.active,
                    name: row.name,
                    organization_id: request.organization_id,
                    revision: notation::decimal_text(row.revision),
                    slug: row.slug,
                },
            ),
        ),
        Reply::Directory(None) => Ok(Err(GetOrganizationError::OrganizationNotFound)),
        _ => Err(database_runtime("get organization directory entry")),
    }
}

/// The statement that reads a subject's standing in an Organization.
pub fn standing_statement(request: &CheckMembershipRequest) -> (result: Statement)
    ensures
        result@ == (Statement::CheckMembership {
            organization_id: request.organization_id@,
            subject: request.subject@,
        }),
{
    Statement::CheckMembership {
        organization_id: request.organization_id.clone(),
        subject: request.subject.clone(),
    }
}

/// What the reply to a membership check says. The columns are read in the
/// order in which they are needed, and the first that is no boolean is named.
pub open spec fn standing_outcome(reply: Reply<Seq<char>>) -> StandingOutcomeView {
    match reply {
        Reply::Standing(row) => match (row.organization_exists, row.active, row.owner) {
            (None, _, _) => Err(postgres_plugin::database_failure("decode organization existence"@)),
            (Some(false), _, _) => Ok(Err(CheckMembershipError::OrganizationNotFound)),
            (Some(true), None, _) => Err(
                postgres_plugin::database_failure("decode organization membership"@),
            ),
            (Some(true), Some(_), None) => Err(
                postgres_plugin::database_failure("decode organization ownership"@),
            ),
            (Some(true), Some(active), Some(owner)) => Ok(
                Ok(CheckMembershipResponse { active, owner }),
            ),
        },
        _ => Err(postgres_plugin::database_failure("check organization membership"@)),
    }
}

/// What the end of a membership check says.
pub open spec fn standing_view(outcome: StandingOutcome) -> StandingOutcomeView {
    match outcome {
        Ok(answer) => Ok(answer),
        Err(failure) => Err(failure@),
    }
}

/// Answers a membership check from the reply of the database.
pub fn standing_answer(reply: Reply) -> (result: StandingOutcome)
    ensures
        standing_view(result) == standing_outcome(reply@),
{
    match reply {
        Reply::Standing(row) => {
            let exists = match row.organization_exists {
                Some(exists) => exists,
                None => return Err(database_runtime("decode organization existence")),
            };
            if !exists {
                return Ok(Err(CheckMembershipError::OrganizationNotFound));
            }
            let active = match row.active {
                Some(active) => active,
                None => return Err(database_runtime("decode organization membership")),
            };
            let owner = match row.owner {
                Some(owner) => owner,
                None => return Err(database_runtime("decode organization ownership")),
            };
            Ok(Ok(CheckMembershipResponse { active, owner }))
        },
        _ => Err(database_runtime("check organization membership")),
    }
}

} // verus!
