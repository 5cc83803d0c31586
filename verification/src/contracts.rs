//! The requests, answers and Domain Errors of the Organization Capabilities.
//!
//! A type with a parameter holds `String` in executable code and sequences of
//! code points in contracts. `Unknown` stands for a Domain Error that a newer
//! provider may report.

use vstd::prelude::*;

use crate::failure::RuntimeFailure;

verus! {

/// How an operation ends: with an answer, a Domain Error or a failure.
pub type Outcome<T, E> = Result<Result<T, E>, RuntimeFailure>;

/// What an outcome says.
pub open spec fn outcome_view<T: View, E>(outcome: Outcome<T, E>) -> Result<
    Result<T::V, E>,
    RuntimeFailure<Seq<char>>,
> {
    match outcome {
        Ok(Ok(answer)) => Ok(Ok(answer@)),
        Ok(Err(error)) => Ok(Err(error)),
        Err(failure) => Err(failure@),
    }
}

/// Asks for an Organization with its first owner.
#[derive(Clone, Debug, PartialEq, Eq)]
pub struct CreateOrganizationRequest<S = String> {
    pub idempotency_key: S,
    pub name: S,
    pub owner_subject: S,
    pub slug: S,
}

impl View for CreateOrganizationRequest {
    type V = CreateOrganizationRequest<Seq<char>>;

    open spec fn view(&self) -> CreateOrganizationRequest<Seq<char>> {
        CreateOrganizationRequest {
            idempotency_key: self.idempotency_key@,
            name: self.name@,
            owner_subject: self.owner_subject@,
            slug: self.slug@,
        }
    }
}

/// The Organization, and whether this request created it.
#[derive(Clone, Debug, PartialEq, Eq)]
pub struct CreateOrganizationResponse<S = String> {
    pub created: bool,
    pub organization_id: S,
    pub owner_membership_id: S,
}

impl View for CreateOrganizationResponse {
    type V = CreateOrganizationResponse<Seq<char>>;

    open spec fn view(&self) -> CreateOrganizationResponse<Seq<char>> {
        CreateOrganizationResponse {
            created: self.created,
            organization_id: self.organization_id@,
            owner_membership_id: self.owner_membership_id@,
        }
    }
}

/// Why no Organization was created.
#[derive(Clone, Copy, Debug, PartialEq, Eq, Structural)]
pub enum CreateOrganizationError {
    Forbidden,
    IdempotencyConflict,
    InvalidOrganization,
    SlugConflict,
    Unknown,
}

/// Why Organizations were not listed.
#[derive(Clone, Copy, Debug, PartialEq, Eq, Structural)]
pub enum ListOrganizationsError {
    Forbidden,
    InvalidPage,
    InvalidRequest,
    Unknown,
}

/// Asks for the directory entry of one Organization.
#[derive(Clone, Debug, PartialEq, Eq)]
pub struct GetOrganizationRequest<S = String> {
    pub organization_id: S,
}

impl View for GetOrganizationRequest {
    type V = GetOrganizationRequest<Seq<char>>;

    open spec fn view(&self) -> GetOrganizationRequest<Seq<char>> {
        GetOrganizationRequest {
            organization_id: self.organization_id@,
        }
    }
}

/// The directory entry of one Organization.
#[derive(Clone, Debug, PartialEq, Eq)]
pub struct GetOrganizationResponse<S = String> {
    pub active: bool,
    pub name: S,
    pub organization_id: S,
    pub revision: S,
    pub slug: S,
}

impl View for GetOrganizationResponse {
    type V = GetOrganizationResponse<Seq<char>>;

    open spec fn view(&self) -> GetOrganizationResponse<Seq<char>> {
        GetOrganizationResponse {
            active: self.active,
            name: self.name@,
            organization_id: self.organization_id@,
            revision: self.revision@,
            slug: self.slug@,
        }
    }
}

/// Why there is no directory entry.
#[derive(Clone, Copy, Debug, PartialEq, Eq, Structural)]
pub enum GetOrganizationError {
    Forbidden,
    InvalidRequest,
    OrganizationNotFound,
    Unknown,
}

/// Asks whether a subject is a member of an Organization.
#[derive(Clone, Debug, PartialEq, Eq)]
pub struct CheckMembershipRequest<S = String> {
    pub organization_id: S,
    pub subject: S,
}

impl View for CheckMembershipRequest {
    type V = CheckMembershipRequest<Seq<char>>;

    open spec fn view(&self) -> CheckMembershipRequest<Seq<char>> {
        CheckMembershipRequest {
            organization_id: self.organization_id@,
            subject: self.subject@,
        }
    }
}

/// Whether the subject is an active member, and whether an owner.
#[derive(Clone, Copy, Debug, PartialEq, Eq, Structural)]
pub struct CheckMembershipResponse {
    pub active: bool,
    pub owner: bool,
}

/// Why membership was not answered.
#[derive(Clone, Copy, Debug, PartialEq, Eq, Structural)]
pub enum CheckMembershipError {
    InvalidRequest,
    OrganizationNotFound,
    Unknown,
}

/// Why members were not listed.
#[derive(Clone, Copy, Debug, PartialEq, Eq, Structural)]
pub enum ListMembersError {
    Forbidden,
    InvalidPage,
    InvalidRequest,
    OrganizationNotFound,
    Unknown,
}

/// Asks for an active membership of a subject.
#[derive(Clone, Debug, PartialEq, Eq)]
pub struct AddMemberRequest<S = String> {
    pub idempotency_key: S,
    pub organization_id: S,
    pub subject: S,
}

impl View for AddMemberRequest {
    type V = AddMemberRequest<Seq<char>>;

    open spec fn view(&self) -> AddMemberRequest<Seq<char>> {
        AddMemberRequest {
            idempotency_key: self.idempotency_key@,
            organization_id: self.organization_id@,
            subject: self.subject@,
        }
    }
}

/// The membership, and whether this request created it.
#[derive(Clone, Debug, PartialEq, Eq)]
pub struct AddMemberResponse<S = String> {
    pub created: bool,
    pub membership_id: S,
    pub revision: S,
}

impl View for AddMemberResponse {
    type V = AddMemberResponse<Seq<char>>;

    open spec fn view(&self) -> AddMemberResponse<Seq<char>> {
        AddMemberResponse {
            created: self.created,
            membership_id: self.membership_id@,
            revision: self.revision@,
        }
    }
}

/// Why no member was added.
#[derive(Clone, Copy, Debug, PartialEq, Eq, Structural)]
pub enum AddMemberError {
    Forbidden,
    IdempotencyConflict,
    InvalidRequest,
    OrganizationNotFound,
    Unknown,
}

/// Asks for the end of a subject's membership.
#[derive(Clone, Debug, PartialEq, Eq)]
pub struct RemoveMemberRequest<S = String> {
    pub idempotency_key: S,
    pub organization_id: S,
    pub subject: S,
}

impl View for RemoveMemberRequest {
    type V = RemoveMemberRequest<Seq<char>>;

    open spec fn view(&self) -> RemoveMemberRequest<Seq<char>> {
        RemoveMemberRequest {
            idempotency_key: self.idempotency_key@,
            organization_id: self.organization_id@,
            subject: self.subject@,
        }
    }
}

/// The membership, and whether this request ended it.
#[derive(Clone, Debug, PartialEq, Eq)]
pub struct RemoveMemberResponse<S = String> {
    pub membership_id: S,
    pub removed: bool,
    pub revision: S,
}

impl View for RemoveMemberResponse {
    type V = RemoveMemberResponse<Seq<char>>;

    open spec fn view(&self) -> RemoveMemberResponse<Seq<char>> {
        RemoveMemberResponse {
            membership_id: self.membership_id@,
            removed: self.removed,
            revision: self.revision@,
        }
    }
}

/// Why no member was removed.
#[derive(Clone, Copy, Debug, PartialEq, Eq, Structural)]
pub enum RemoveMemberError {
    Forbidden,
    IdempotencyConflict,
    InvalidRequest,
    MembershipNotFound,
    OrganizationNotFound,
    OwnerProtected,
    Unknown,
}

} // verus!
