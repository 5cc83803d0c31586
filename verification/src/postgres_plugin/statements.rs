//! The SQL that the Plugin runs, what is bound to it, and what comes back.

use vstd::prelude::*;

use crate::transaction;

verus! {

/// A value bound to a statement.
#[derive(Clone, Debug, PartialEq, Eq)]
pub enum Parameter<S = String> {
    Text(S),
    Integer(i64),
    Flag(bool),
}

/// What the bound values are.
pub open spec fn parameter_values(parameters: Seq<Parameter>) -> Seq<Parameter<Seq<char>>> {
    Seq::new(
        parameters.len(),
        |i: int|
            match parameters[i] {
                Parameter::Text(text) => Parameter::Text(text@),
                Parameter::Integer(value) => Parameter::Integer(value),
                Parameter::Flag(value) => Parameter::Flag(value),
            },
    )
}

/// One SQL statement with the values it is run on.
#[derive(Clone, Debug, PartialEq, Eq)]
pub enum Statement<S = String> {
    /// Claims the caller's idempotency key for a creation.
    ReserveCreation {
        caller_instance: S,
        idempotency_key: S,
        name: S,
        slug: S,
        owner_subject: S,
        organization_id: S,
        owner_membership_id: S,
    },
    /// Reads the creation that claimed the caller's idempotency key.
    ReadCreation { caller_instance: S, idempotency_key: S },
    /// Stores an Organization.
    InsertOrganization { organization_id: S, name: S, slug: S },
    /// Stores the membership of an Organization's first owner.
    InsertOwner { membership_id: S, organization_id: S, subject: S },
    /// Claims the caller's idempotency key for a membership command.
    ReserveCommand {
        caller_instance: S,
        idempotency_key: S,
        operation: S,
        organization_id: S,
        subject: S,
    },
    /// Reads the membership command that claimed the caller's idempotency key.
    ReadCommand { caller_instance: S, idempotency_key: S },
    /// Records the result of a membership command.
    CompleteCommand {
        caller_instance: S,
        idempotency_key: S,
        membership_id: S,
        revision: i64,
        changed: bool,
    },
    /// Locks an Organization and reads whether it is active.
    LockOrganization { organization_id: S },
    /// Locks and reads the active membership of a subject.
    ReadMemberForAddition { organization_id: S, subject: S },
    /// Stores the membership of a subject who is no owner.
    InsertMember { membership_id: S, organization_id: S, subject: S },
    /// Locks and reads the active membership of a subject, with its ownership.
    ReadMemberForRemoval { organization_id: S, subject: S },
    /// Tombstones a membership at a new revision.
    RemoveMember { organization_id: S, membership_id: S, revision: i64 },
    /// Reads the directory entry of an Organization.
    GetOrganization { organization_id: S },
    /// Reads whether an Organization is active, and the latest membership of a subject in it.
    CheckMembership { organization_id: S, subject: S },
}

impl View for Statement {
    type V = Statement<Seq<char>>;

    open spec fn view(&self) -> Statement<Seq<char>> {
        match *self {
            Statement::ReserveCreation {
                caller_instance,
                idempotency_key,
                name,
                slug,
                owner_subject,
                organization_id,
                owner_membership_id,
            } => Statement::ReserveCreation {
                caller_instance: caller_instance@,
                idempotency_key: idempotency_key@,
                name: name@,
                slug: slug@,
                owner_subject: owner_subject@,
                organization_id: organization_id@,
                owner_membership_id: owner_membership_id@,
            },
            Statement::ReadCreation {
                caller_instance,
                idempotency_key,
            } => Statement::ReadCreation {
                caller_instance: caller_instance@,
                idempotency_key: idempotency_key@,
            },
            Statement::InsertOrganization {
                organization_id,
                name,
                slug,
            } => Statement::InsertOrganization {
                organization_id: organization_id@,
                name: name@,
                slug: slug@,
            },
            Statement::InsertOwner {
                membership_id,
                organization_id,
                subject,
            } => Statement::InsertOwner {
                membership_id: membership_id@,
                organization_id: organization_id@,
                subject: subject@,
            },
            Statement::ReserveCommand {
                caller_instance,
                idempotency_key,
                operation,
                organization_id,
                subject,
            } => Statement::ReserveCommand {
                caller_instance: caller_instance@,
                idempotency_key: idempotency_key@,
                operation: operation@,
                organization_id: organization_id@,
                subject: subject@,
            },
            Statement::ReadCommand { caller_instance, idempotency_key } => Statement::ReadCommand {
                caller_instance: caller_instance@,
                idempotency_key: idempotency_key@,
            },
            Statement::CompleteCommand {
                caller_instance,
                idempotency_key,
                membership_id,
                revision,
                changed,
            } => Statement::CompleteCommand {
                caller_instance: caller_instance@,
                idempotency_key: idempotency_key@,
                membership_id: membership_id@,
                revision,
                changed,
            },
            Statement::LockOrganization { organization_id } => Statement::LockOrganization {
                organization_id: organization_id@,
            },
            Statement::ReadMemberForAddition {
                organization_id,
                subject,
            } => Statement::ReadMemberForAddition {
                organization_id: organization_id@,
                subject: subject@,
            },
            Statement::InsertMember {
                membership_id,
                organization_id,
                subject,
            } => Statement::InsertMember {
                membership_id: membership_id@,
                organization_id: organization_id@,
                subject: subject@,
            },
            Statement::ReadMemberForRemoval {
                organization_id,
                subject,
            } => Statement::ReadMemberForRemoval {
                organization_id: organization_id@,
                subject: subject@,
            },
            Statement::RemoveMember {
                organization_id,
                membership_id,
                revision,
            } => Statement::RemoveMember {
                organization_id: organization_id@,
                membership_id: membership_id@,
                revision,
            },
            Statement::GetOrganization { organization_id } => Statement::GetOrganization {
                organization_id: organization_id@,
            },
            Statement::CheckMembership { organization_id, subject } => Statement::CheckMembership {
                organization_id: organization_id@,
                subject: subject@,
            },
        }
    }
}

impl<S> Statement<S> {
    /// The text of the statement.
    pub open spec fn text(self) -> Seq<char> {
        match self {
            Statement::ReserveCreation { .. } =>
                "INSERT INTO organization_creation_requests (caller_instance,idempotency_key,name,slug,owner_subject,organization_id,owner_membership_id) VALUES ($1,$2,$3,$4,$5,$6,$7) ON CONFLICT (caller_instance,idempotency_key) DO NOTHING"@,
            Statement::ReadCreation { .. } =>
                "SELECT name,slug,owner_subject,organization_id,owner_membership_id FROM organization_creation_requests WHERE caller_instance=$1 AND idempotency_key=$2"@,
            Statement::InsertOrganization { .. } =>
                "INSERT INTO organizations (organization_id,name,slug) VALUES ($1,$2,$3)"@,
            Statement::InsertOwner { .. } =>
                "INSERT INTO organization_memberships (membership_id,organization_id,subject,is_owner) VALUES ($1,$2,$3,true)"@,
            Statement::ReserveCommand { .. } =>
                "INSERT INTO organization_membership_commands (caller_instance,idempotency_key,operation,organization_id,subject) VALUES ($1,$2,$3,$4,$5) ON CONFLICT (caller_instance,idempotency_key) DO NOTHING"@,
            Statement::ReadCommand { .. } =>
                "SELECT operation,organization_id,subject,membership_id,result_revision,changed FROM organization_membership_commands WHERE caller_instance=$1 AND idempotency_key=$2 FOR UPDATE"@,
            Statement::CompleteCommand { .. } =>
                "UPDATE organization_membership_commands SET membership_id=$3,result_revision=$4,changed=$5,completed_at=transaction_timestamp() WHERE caller_instance=$1 AND idempotency_key=$2 AND completed_at IS NULL"@,
            Statement::LockOrganization { .. } =>
                "SELECT archived_at IS NULL FROM organizations WHERE organization_id=$1 FOR UPDATE"@,
            Statement::ReadMemberForAddition { .. } =>
                "SELECT membership_id,revision FROM organization_memberships WHERE organization_id=$1 AND subject=$2 AND removed_at IS NULL FOR UPDATE"@,
            Statement::InsertMember { .. } =>
                "INSERT INTO organization_memberships (membership_id,organization_id,subject,is_owner,revision) VALUES ($1,$2,$3,false,1)"@,
            Statement::ReadMemberForRemoval { .. } =>
                "SELECT membership_id,is_owner,revision FROM organization_memberships WHERE organization_id=$1 AND subject=$2 AND removed_at IS NULL FOR UPDATE"@,
            Statement::RemoveMember { .. } =>
                "UPDATE organization_memberships SET removed_at=transaction_timestamp(),updated_at=transaction_timestamp(),revision=$3 WHERE organization_id=$1 AND membership_id=$2 AND removed_at IS NULL"@,
            Statement::GetOrganization { .. } =>
                "SELECT name,slug,archived_at IS NULL,revision FROM organizations WHERE organization_id=$1"@,
            Statement::CheckMembership { .. } =>
                "SELECT EXISTS(SELECT 1 FROM organizations WHERE organization_id=$1 AND archived_at IS NULL) AS organization_exists, COALESCE((SELECT removed_at IS NULL FROM organization_memberships WHERE organization_id=$1 AND subject=$2 ORDER BY created_at DESC LIMIT 1),false) AS active, COALESCE((SELECT is_owner AND removed_at IS NULL FROM organization_memberships WHERE organization_id=$1 AND subject=$2 ORDER BY created_at DESC LIMIT 1),false) AS owner"@,
        }
    }

    /// The values bound to `$1`, `$2` and so on.
    pub open spec fn values(self) -> Seq<Parameter<S>> {
        match self {
            Statement::ReserveCreation {
                caller_instance,
                idempotency_key,
                name,
                slug,
                owner_subject,
                organization_id,
                owner_membership_id,
            } => seq![
                Parameter::Text(caller_instance),
                Parameter::Text(idempotency_key),
                Parameter::Text(name),
                Parameter::Text(slug),
                Parameter::Text(owner_subject),
                Parameter::Text(organization_id),
                Parameter::Text(owner_membership_id),
            ],
            Statement::ReadCreation { caller_instance, idempotency_key } => seq![
                Parameter::Text(caller_instance),
                Parameter::Text(idempotency_key),
            ],
            Statement::InsertOrganization { organization_id, name, slug } => seq![
                Parameter::Text(organization_id),
                Parameter::Text(name),
                Parameter::Text(slug),
            ],
            Statement::InsertOwner { membership_id, organization_id, subject } => seq![
                Parameter::Text(membership_id),
                Parameter::Text(organization_id),
                Parameter::Text(subject),
            ],
            Statement::ReserveCommand {
                caller_instance,
                idempotency_key,
                operation,
                organization_id,
                subject,
            } => seq![
                Parameter::Text(caller_instance),
                Parameter::Text(idempotency_key),
                Parameter::Text(operation),
                Parameter::Text(organization_id),
                Parameter::Text(subject),
            ],
            Statement::ReadCommand { caller_instance, idempotency_key } => seq![
                Parameter::Text(caller_instance),
                Parameter::Text(idempotency_key),
            ],
            Statement::CompleteCommand {
                caller_instance,
                idempotency_key,
                membership_id,
                revision,
                changed,
            } => seq![
                Parameter::Text(caller_instance),
                Parameter::Text(idempotency_key),
                Parameter::Text(membership_id),
                Parameter::Integer(revision),
                Parameter::Flag(changed),
            ],
            Statement::LockOrganization { organization_id } => seq![
                Parameter::Text(organization_id),
            ],
            Statement::ReadMemberForAddition { organization_id, subject } => seq![
                Parameter::Text(organization_id),
                Parameter::Text(subject),
            ],
            Statement::InsertMember { membership_id, organization_id, subject } => seq![
                Parameter::Text(membership_id),
                Parameter::Text(organization_id),
                Parameter::Text(subject),
            ],
            Statement::ReadMemberForRemoval { organization_id, subject } => seq![
                Parameter::Text(organization_id),
                Parameter::Text(subject),
            ],
            Statement::RemoveMember { organization_id, membership_id, revision } => seq![
                Parameter::Text(organization_id),
                Parameter::Text(membership_id),
                Parameter::Integer(revision),
            ],
            Statement::GetOrganization { organization_id } => seq![
                Parameter::Text(organization_id),
            ],
            Statement::CheckMembership { organization_id, subject } => seq![
                Parameter::Text(organization_id),
                Parameter::Text(subject),
            ],
        }
    }
}

impl Statement {
    /// The text of the statement.
    pub fn sql(&self) -> (result: &'static str)
        ensures
            result@ == self@.text(),
    {
        match self {
            Statement::ReserveCreation { .. } =>
                "INSERT INTO organization_creation_requests (caller_instance,idempotency_key,name,slug,owner_subject,organization_id,owner_membership_id) VALUES ($1,$2,$3,$4,$5,$6,$7) ON CONFLICT (caller_instance,idempotency_key) DO NOTHING",
            Statement::ReadCreation { .. } =>
                "SELECT name,slug,owner_subject,organization_id,owner_membership_id FROM organization_creation_requests WHERE caller_instance=$1 AND idempotency_key=$2",
            Statement::InsertOrganization { .. } =>
                "INSERT INTO organizations (organization_id,name,slug) VALUES ($1,$2,$3)",
            Statement::InsertOwner { .. } =>
                "INSERT INTO organization_memberships (membership_id,organization_id,subject,is_owner) VALUES ($1,$2,$3,true)",
            Statement::ReserveCommand { .. } =>
                "INSERT INTO organization_membership_commands (caller_instance,idempotency_key,operation,organization_id,subject) VALUES ($1,$2,$3,$4,$5) ON CONFLICT (caller_instance,idempotency_key) DO NOTHING",
            Statement::ReadCommand { .. } =>
                "SELECT operation,organization_id,subject,membership_id,result_revision,changed FROM organization_membership_commands WHERE caller_instance=$1 AND idempotency_key=$2 FOR UPDATE",
            Statement::CompleteCommand { .. } =>
                "UPDATE organization_membership_commands SET membership_id=$3,result_revision=$4,changed=$5,completed_at=transaction_timestamp() WHERE caller_instance=$1 AND idempotency_key=$2 AND completed_at IS NULL",
            Statement::LockOrganization { .. } =>
                "SELECT archived_at IS NULL FROM organizations WHERE organization_id=$1 FOR UPDATE",
            Statement::ReadMemberForAddition { .. } =>
                "SELECT membership_id,revision FROM organization_memberships WHERE organization_id=$1 AND subject=$2 AND removed_at IS NULL FOR UPDATE",
            Statement::InsertMember { .. } =>
                "INSERT INTO organization_memberships (membership_id,organization_id,subject,is_owner,revision) VALUES ($1,$2,$3,false,1)",
            Statement::ReadMemberForRemoval { .. } =>
                "SELECT membership_id,is_owner,revision FROM organization_memberships WHERE organization_id=$1 AND subject=$2 AND removed_at IS NULL FOR UPDATE",
            Statement::RemoveMember { .. } =>
                "UPDATE organization_memberships SET removed_at=transaction_timestamp(),updated_at=transaction_timestamp(),revision=$3 WHERE organization_id=$1 AND membership_id=$2 AND removed_at IS NULL",
            Statement::GetOrganization { .. } =>
                "SELECT name,slug,archived_at IS NULL,revision FROM organizations WHERE organization_id=$1",
            Statement::CheckMembership { .. } =>
                "SELECT EXISTS(SELECT 1 FROM organizations WHERE organization_id=$1 AND archived_at IS NULL) AS organization_exists, COALESCE((SELECT removed_at IS NULL FROM organization_memberships WHERE organization_id=$1 AND subject=$2 ORDER BY created_at DESC LIMIT 1),false) AS active, COALESCE((SELECT is_owner AND removed_at IS NULL FROM organization_memberships WHERE organization_id=$1 AND subject=$2 ORDER BY created_at DESC LIMIT 1),false) AS owner",
        }
    }

    /// The values bound to `$1`, `$2` and so on.
    pub fn parameters(&self) -> (result: Vec<Parameter>)
        ensures
            parameter_values(result@) == self@.values(),
    {
        match self {
            Statement::ReserveCreation {
                caller_instance,
                idempotency_key,
                name,
                slug,
                owner_subject,
                organization_id,
                owner_membership_id,
            } => vec![
                Parameter::Text(caller_instance.clone()),
                Parameter::Text(idempotency_key.clone()),
                Parameter::Text(name.clone()),
                Parameter::Text(slug.clone()),
                Parameter::Text(owner_subject.clone()),
                Parameter::Text(organization_id.clone()),
                Parameter::Text(owner_membership_id.clone()),
            ],
            Statement::ReadCreation { caller_instance, idempotency_key } => vec![
                Parameter::Text(caller_instance.clone()),
                Parameter::Text(idempotency_key.clone()),
            ],
            Statement::InsertOrganization { organization_id, name, slug } => vec![
                Parameter::Text(organization_id.clone()),
                Parameter::Text(name.clone()),
                Parameter::Text(slug.clone()),
            ],
            Statement::InsertOwner { membership_id, organization_id, subject } => vec![
                Parameter::Text(membership_id.clone()),
                Parameter::Text(organization_id.clone()),
                Parameter::Text(subject.clone()),
            ],
            Statement::ReserveCommand {
                caller_instance,
                idempotency_key,
                operation,
                organization_id,
                subject,
            } => vec![
                Parameter::Text(caller_instance.clone()),
                Parameter::Text(idempotency_key.clone()),
                Parameter::Text(operation.clone()),
                Parameter::Text(organization_id.clone()),
                Parameter::Text(subject.clone()),
            ],
            Statement::ReadCommand { caller_instance, idempotency_key } => vec![
                Parameter::Text(caller_instance.clone()),
                Parameter::Text(idempotency_key.clone()),
            ],
            Statement::CompleteCommand {
                caller_instance,
                idempotency_key,
                membership_id,
                revision,
                changed,
            } => vec![
                Parameter::Text(caller_instance.clone()),
                Parameter::Text(idempotency_key.clone()),
                Parameter::Text(membership_id.clone()),
                Parameter::Integer(*revision),
                Parameter::Flag(*changed),
            ],
            Statement::LockOrganization { organization_id } => vec![
                Parameter::Text(organization_id.clone()),
            ],
            Statement::ReadMemberForAddition { organization_id, subject } => vec![
                Parameter::Text(organization_id.clone()),
                Parameter::Text(subject.clone()),
            ],
            Statement::InsertMember { membership_id, organization_id, subject } => vec![
                Parameter::Text(membership_id.clone()),
                Parameter::Text(organization_id.clone()),
                Parameter::Text(subject.clone()),
            ],
            Statement::ReadMemberForRemoval { organization_id, subject } => vec![
                Parameter::Text(organization_id.clone()),
                Parameter::Text(subject.clone()),
            ],
            Statement::RemoveMember { organization_id, membership_id, revision } => vec![
                Parameter::Text(organization_id.clone()),
                Parameter::Text(membership_id.clone()),
                Parameter::Integer(*revision),
            ],
            Statement::GetOrganization { organization_id } => vec![
                Parameter::Text(organization_id.clone()),
            ],
            Statement::CheckMembership { organization_id, subject } => vec![
                Parameter::Text(organization_id.clone()),
                Parameter::Text(subject.clone()),
            ],
        }
    }
}

/// What a transaction asks the database for next.
#[derive(Clone, Debug, PartialEq, Eq)]
pub enum Action<S = String> {
    Begin,
    Execute(Statement<S>),
    Commit,
}

impl View for Action {
    type V = Action<Seq<char>>;

    open spec fn view(&self) -> Action<Seq<char>> {
        match *self {
            Action::Begin => Action::Begin,
            Action::Execute(statement) => Action::Execute(statement@),
            Action::Commit => Action::Commit,
        }
    }
}

/// What the database answers. A row of the wrong shape counts as a failure of
/// the statement that read it.
#[derive(Clone, Debug, PartialEq, Eq)]
pub enum Reply<S = String> {
    /// The transaction began, or was committed.
    Done,
    /// The statement ran and touched this many rows.
    RowsAffected(u64),
    /// The creation that was read.
    Creation(CreationRow<S>),
    /// The membership command that was read.
    Command(CommandRow<S>),
    /// Whether the locked Organization is active, if there is one.
    Organization(Option<bool>),
    /// The active membership, if there is one.
    Member(Option<MemberRow<S>>),
    /// The active membership with its ownership, if there is one.
    OwnedMember(Option<OwnedMemberRow<S>>),
    /// The directory entry, if there is one.
    Directory(Option<DirectoryRow<S>>),
    /// The standing of a subject in an Organization.
    Standing(StandingRow),
    /// The request failed, with the constraint that it broke if one is named.
    Failed { constraint: Option<S> },
}

/// A row of `organization_creation_requests`.
#[derive(Clone, Debug, PartialEq, Eq)]
pub struct CreationRow<S = String> {
    pub name: S,
    pub slug: S,
    pub owner_subject: S,
    pub organization_id: S,
    pub owner_membership_id: S,
}

/// A row of `organization_membership_commands`.
#[derive(Clone, Debug, PartialEq, Eq)]
pub struct CommandRow<S = String> {
    pub operation: S,
    pub organization_id: S,
    pub subject: S,
    pub membership_id: Option<S>,
    pub result_revision: Option<i64>,
    pub changed: Option<bool>,
}

/// What an addition reads of a membership.
#[derive(Clone, Debug, PartialEq, Eq)]
pub struct MemberRow<S = String> {
    pub membership_id: S,
    pub revision: i64,
}

/// What a removal reads of a membership.
#[derive(Clone, Debug, PartialEq, Eq)]
pub struct OwnedMemberRow<S = String> {
    pub membership_id: S,
    pub is_owner: bool,
    pub revision: i64,
}

/// What a directory read finds of an Organization.
#[derive(Clone, Debug, PartialEq, Eq)]
pub struct DirectoryRow<S = String> {
    pub name: S,
    pub slug: S,
    pub active: bool,
    pub revision: i64,
}

/// What a membership check finds. A column that is no boolean is `None`.
#[derive(Clone, Copy, Debug, PartialEq, Eq)]
pub struct StandingRow {
    pub organization_exists: Option<bool>,
    pub active: Option<bool>,
    pub owner: Option<bool>,
}

impl View for CreationRow {
    type V = CreationRow<Seq<char>>;

    open spec fn view(&self) -> CreationRow<Seq<char>> {
        CreationRow {
            name: self.name@,
            slug: self.slug@,
            owner_subject: self.owner_subject@,
            organization_id: self.organization_id@,
            owner_membership_id: self.owner_membership_id@,
        }
    }
}

impl View for CommandRow {
    type V = CommandRow<Seq<char>>;

    open spec fn view(&self) -> CommandRow<Seq<char>> {
        CommandRow {
            operation: self.operation@,
            organization_id: self.organization_id@,
            subject: self.subject@,
            membership_id: transaction::optional_text(self.membership_id),
            result_revision: self.result_revision,
            changed: self.changed,
        }
    }
}

impl View for MemberRow {
    type V = MemberRow<Seq<char>>;

    open spec fn view(&self) -> MemberRow<Seq<char>> {
        MemberRow { membership_id: self.membership_id@, revision: self.revision }
    }
}

impl View for OwnedMemberRow {
    type V = OwnedMemberRow<Seq<char>>;

    open spec fn view(&self) -> OwnedMemberRow<Seq<char>> {
        OwnedMemberRow {
            membership_id: self.membership_id@,
            is_owner: self.is_owner,
            revision: self.revision,
        }
    }
}

impl View for DirectoryRow {
    type V = DirectoryRow<Seq<char>>;

    open spec fn view(&self) -> DirectoryRow<Seq<char>> {
        DirectoryRow {
            name: self.name@,
            slug: self.slug@,
            active: self.active,
            revision: self.revision,
        }
    }
}

impl View for Reply {
    type V = Reply<Seq<char>>;

    open spec fn view(&self) -> Reply<Seq<char>> {
        match *self {
            Reply::Done => Reply::Done,
            Reply::RowsAffected(count) => Reply::RowsAffected(count),
            Reply::Creation(row) => Reply::Creation(row@),
            Reply::Command(row) => Reply::Command(row@),
            Reply::Organization(active) => Reply::Organization(active),
            Reply::Member(None) => Reply::Member(None),
            Reply::Member(Some(row)) => Reply::Member(Some(row@)),
            Reply::OwnedMember(None) => Reply::OwnedMember(None),
            Reply::OwnedMember(Some(row)) => Reply::OwnedMember(Some(row@)),
            Reply::Directory(None) => Reply::Directory(None),
            Reply::Directory(Some(row)) => Reply::Directory(Some(row@)),
            Reply::Standing(row) => Reply::Standing(row),
            Reply::Failed { constraint } => Reply::Failed {
                constraint: transaction::optional_text(constraint),
            },
        }
    }
}

} // verus!
