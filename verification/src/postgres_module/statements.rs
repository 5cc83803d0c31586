//! The SQL that the Module runs, what is bound to it, and what comes back.

use vstd::prelude::*;

use crate::text;
use crate::transaction;

verus! {

/// What the owner of an Organization may do.
pub open spec fn owner_permissions() -> Seq<Seq<char>> {
    seq![
        "organization.read"@,
        "organization.manage"@,
        "organization.members.manage"@,
        "organization.roles.manage"@,
        "organization.invitations.manage"@,
    ]
}

/// What the owner of an Organization may do.
pub fn owner_permission_list() -> (result: Vec<String>)
    ensures
        text::contents(result@) == owner_permissions(),
{
    let permissions = vec![
        "organization.read".to_owned(),
        "organization.manage".to_owned(),
        "organization.members.manage".to_owned(),
        "organization.roles.manage".to_owned(),
        "organization.invitations.manage".to_owned(),
    ];
    assert(text::contents(permissions@) =~= owner_permissions());
    permissions
}

/// A value bound to a statement.
#[derive(Clone, Debug, PartialEq, Eq)]
pub enum Parameter {
    Text(String),
    Texts(Vec<String>),
}

/// What a bound value is.
pub enum ParameterView {
    Text(Seq<char>),
    Texts(Seq<Seq<char>>),
}

/// What the bound values are.
pub open spec fn parameter_values(parameters: Seq<Parameter>) -> Seq<ParameterView> {
    Seq::new(
        parameters.len(),
        |i: int|
            match parameters[i] {
                Parameter::Text(value) => ParameterView::Text(value@),
                Parameter::Texts(values) => ParameterView::Texts(text::contents(values@)),
            },
    )
}

/// One SQL statement with the values it is run on.
#[derive(Clone, Debug, PartialEq, Eq)]
pub enum Statement<S = String> {
    /// Stores an Organization.
    InsertOrganization { organization_id: S, name: S, slug: S },
    /// Stores the owner role of an Organization, with every owner permission.
    InsertOwnerRole { role_id: S, organization_id: S },
    /// Stores the membership of a subject with a role.
    InsertMembership { membership_id: S, organization_id: S, subject: S, role_id: S },
    /// Reads whether an Organization is active, and whether a subject holds a
    /// permission in it.
    CheckPermission { organization_id: S, subject: S, permission: S },
}

impl View for Statement {
    type V = Statement<Seq<char>>;

    open spec fn view(&self) -> Statement<Seq<char>> {
        match *self {
            Statement::InsertOrganization { organization_id, name, slug } =>
                Statement::InsertOrganization {
                    organization_id: organization_id@,
                    name: name@,
                    slug: slug@,
                },
            Statement::InsertOwnerRole { role_id, organization_id } => Statement::InsertOwnerRole {
                role_id: role_id@,
                organization_id: organization_id@,
            },
            Statement::InsertMembership { membership_id, organization_id, subject, role_id } =>
                Statement::InsertMembership {
                    membership_id: membership_id@,
                    organization_id: organization_id@,
                    subject: subject@,
                    role_id: role_id@,
                },
            Statement::CheckPermission { organization_id, subject, permission } =>
                Statement::CheckPermission {
                    organization_id: organization_id@,
                    subject: subject@,
                    permission: permission@,
                },
        }
    }
}

impl Statement<Seq<char>> {
    /// The text of the statement.
    pub open spec fn text(self) -> Seq<char> {
        match self {
            Statement::InsertOrganization { .. } =>
                "INSERT INTO organizations (organization_id,name,slug) VALUES ($1,$2,$3)"@,
            Statement::InsertOwnerRole { .. } =>
                "INSERT INTO organization_roles (role_id,organization_id,name,permissions,system_key) VALUES ($1,$2,'Owner',$3,'owner')"@,
            Statement::InsertMembership { .. } =>
                "INSERT INTO organization_memberships (membership_id,organization_id,subject,role_id) VALUES ($1,$2,$3,$4)"@,
            Statement::CheckPermission { .. } =>
                "SELECT EXISTS(SELECT 1 FROM organizations WHERE organization_id=$1 AND archived_at IS NULL) AS organization_exists, EXISTS(SELECT 1 FROM organization_memberships m JOIN organization_roles r ON r.role_id=m.role_id AND r.organization_id=m.organization_id WHERE m.organization_id=$1 AND m.subject=$2 AND m.removed_at IS NULL AND $3=ANY(r.permissions)) AS allowed"@,
        }
    }

    /// The values bound to `$1`, `$2` and so on.
    pub open spec fn values(self) -> Seq<ParameterView> {
        match self {
            Statement::InsertOrganization { organization_id, name, slug } => seq![
                ParameterView::Text(organization_id),
                ParameterView::Text(name),
                ParameterView::Text(slug),
            ],
            Statement::InsertOwnerRole { role_id, organization_id } => seq![
                ParameterView::Text(role_id),
                ParameterView::Text(organization_id),
                ParameterView::Texts(owner_permissions()),
            ],
            Statement::InsertMembership { membership_id, organization_id, subject, role_id } => seq![
                ParameterView::Text(membership_id),
                ParameterView::Text(organization_id),
                ParameterView::Text(subject),
                ParameterView::Text(role_id),
            ],
            Statement::CheckPermission { organization_id, subject, permission } => seq![
                ParameterView::Text(organization_id),
                ParameterView::Text(subject),
                ParameterView::Text(permission),
            ],
        }
    }
}

impl Statement {
    /// The text of the statement.
    pub fn sql(&self) -> (result: &'static str)
        ensures
            result@ == self@.text(),
    {
        match self {
            Statement::InsertOrganization { .. } =>
                "INSERT INTO organizations (organization_id,name,slug) VALUES ($1,$2,$3)",
            Statement::InsertOwnerRole { .. } =>
                "INSERT INTO organization_roles (role_id,organization_id,name,permissions,system_key) VALUES ($1,$2,'Owner',$3,'owner')",
            Statement::InsertMembership { .. } =>
                "INSERT INTO organization_memberships (membership_id,organization_id,subject,role_id) VALUES ($1,$2,$3,$4)",
            Statement::CheckPermission { .. } =>
                "SELECT EXISTS(SELECT 1 FROM organizations WHERE organization_id=$1 AND archived_at IS NULL) AS organization_exists, EXISTS(SELECT 1 FROM organization_memberships m JOIN organization_roles r ON r.role_id=m.role_id AND r.organization_id=m.organization_id WHERE m.organization_id=$1 AND m.subject=$2 AND m.removed_at IS NULL AND $3=ANY(r.permissions)) AS allowed",
        }
    }

    /// The values bound to `$1`, `$2` and so on.
    pub fn parameters(&self) -> (result: Vec<Parameter>)
        ensures
            parameter_values(result@) == self@.values(),
    {
        match self {
            Statement::InsertOrganization { organization_id, name, slug } => vec![
                Parameter::Text(organization_id.clone()),
                Parameter::Text(name.clone()),
                Parameter::Text(slug.clone()),
            ],
            Statement::InsertOwnerRole { role_id, organization_id } => vec![
                Parameter::Text(role_id.clone()),
                Parameter::Text(organization_id.clone()),
                Parameter::Texts(owner_permission_list()),
            ],
            Statement::InsertMembership { membership_id, organization_id, subject, role_id } => vec![
                Parameter::Text(membership_id.clone()),
                Parameter::Text(organization_id.clone()),
                Parameter::Text(subject.clone()),
                Parameter::Text(role_id.clone()),
            ],
            Statement::CheckPermission { organization_id, subject, permission } => vec![
                Parameter::Text(organization_id.clone()),
                Parameter::Text(subject.clone()),
                Parameter::Text(permission.clone()),
            ],
        }
    }
}

/// What a transaction asks the database for next.
#[derive(Clone, Debug, PartialEq, Eq)]
pub enum Action<S = String> {
    Begin,
    Execute(Statement<S>),
    Commit,
}

impl View for Action {
    type V = Action<Seq<char>>;

    open spec fn view(&self) -> Action<Seq<char>> {
        match *self {
            Action::Begin => Action::Begin,
            Action::Execute(statement) => Action::Execute(statement@),
            Action::Commit => Action::Commit,
        }
    }
}

/// What a permission check finds. A column that is no boolean is `None`.
#[derive(Clone, Copy, Debug, PartialEq, Eq)]
pub struct AccessRow {
    pub organization_exists: Option<bool>,
    pub allowed: Option<bool>,
}

/// What the database answers. A row of the wrong shape counts as a failure of
/// the statement that read it.
#[derive(Clone, Debug, PartialEq, Eq)]
pub enum Reply<S = String> {
    /// The transaction began, or was committed.
    Done,
    /// The statement ran and touched this many rows.
    RowsAffected(u64),
    /// The access of a subject to an Organization.
    Access(AccessRow),
    /// The request failed, with the constraint that it broke if one is named.
    Failed { constraint: Option<S> },
}

impl View for Reply {
    type V = Reply<Seq<char>>;

    open spec fn view(&self) -> Reply<Seq<char>> {
        match *self {
            Reply::Done => Reply::Done,
            Reply::RowsAffected(count) => Reply::RowsAffected(count),
            Reply::Access(row) => Reply::Access(row),
            Reply::Failed { constraint } => Reply::Failed {
                constraint: transaction::optional_text(constraint),
            },
        }
    }
}

} // verus!
