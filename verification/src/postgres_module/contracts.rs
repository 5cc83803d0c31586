//! The requests, answers and Domain Errors of the Module's Capabilities.

use vstd::prelude::*;

verus! {

/// Asks for an Organization with its first owner.
#[derive(Clone, Debug, PartialEq, Eq)]
pub struct CreateOrganizationRequest<S = String> {
    pub name: S,
    pub owner_subject: S,
    pub slug: S,
}

impl View for CreateOrganizationRequest {
    type V = CreateOrganizationRequest<Seq<char>>;

    open spec fn view(&self) -> CreateOrganizationRequest<Seq<char>> {
        CreateOrganizationRequest {
            name: self.name@,
            owner_subject: self.owner_subject@,
            slug: self.slug@,
        }
    }
}

/// The Organization, its owner's membership and the owner's role.
#[derive(Clone, Debug, PartialEq, Eq)]
pub struct CreateOrganizationResponse<S = String> {
    pub organization_id: S,
    pub owner_membership_id: S,
    pub owner_role_id: S,
}

impl View for CreateOrganizationResponse {
    type V = CreateOrganizationResponse<Seq<char>>;

    open spec fn view(&self) -> CreateOrganizationResponse<Seq<char>> {
        CreateOrganizationResponse {
            organization_id: self.organization_id@,
            owner_membership_id: self.owner_membership_id@,
            owner_role_id: self.owner_role_id@,
        }
    }
}

/// Why no Organization was created.
#[derive(Clone, Copy, Debug, PartialEq, Eq, Structural)]
pub enum CreateOrganizationError {
    Forbidden,
    InvalidOrganization,
    SlugConflict,
}

/// Asks whether a subject holds a permission in an Organization.
#[derive(Clone, Debug, PartialEq, Eq)]
pub struct CheckPermissionRequest<S = String> {
    pub organization_id: S,
    pub permission: S,
    pub subject: S,
}

impl View for CheckPermissionRequest {
    type V = CheckPermissionRequest<Seq<char>>;

    open spec fn view(&self) -> CheckPermissionRequest<Seq<char>> {
        CheckPermissionRequest {
            organization_id: self.organization_id@,
            permission: self.permission@,
            subject: self.subject@,
        }
    }
}

/// Whether the subject holds the permission.
#[derive(Clone, Copy, Debug, PartialEq, Eq, Structural)]
pub struct CheckPermissionResponse {
    pub allowed: bool,
}

/// Why a permission was not checked.
#[derive(Clone, Copy, Debug, PartialEq, Eq, Structural)]
pub enum CheckPermissionError {
    InvalidRequest,
    OrganizationNotFound,
}

} // verus!
