//! The tables as the database holds them, and the Plugin's statements in SQL.
//!
//! [`Store`] is what the operations are proved of. Here it is tied to rows of
//! named columns, and each statement's text and bound values to what they do
//! to those rows.

use vstd::prelude::*;

use crate::postgres_plugin::membership;
use crate::postgres_plugin::statements::{
    CommandRow, CreationRow, DirectoryRow, MemberRow, OwnedMemberRow, Parameter, Reply,
    StandingRow, Statement,
};
use crate::postgres_plugin::store::{MembershipRecord, OrganizationRecord, ReceiptKey, Store};
use crate::sql::{
    Binding, Column, Command, Condition, Constraint, Database, Item, Label, Outcome, Probe, Row,
    Schema, Table, Term, Value,
};

verus! {

/// The conditions that pick the rows of one Organization.
pub open spec fn of_organization() -> Condition {
    Condition::Equal(Column::OrganizationId, Term::Placeholder(1))
}

/// The conditions that pick the receipt of one key.
pub open spec fn of_key() -> Seq<Condition> {
    seq![
        Condition::Equal(Column::CallerInstance, Term::Placeholder(1)),
        Condition::Equal(Column::IdempotencyKey, Term::Placeholder(2)),
    ]
}

impl<S> Statement<S> {
    /// The statement as a command.
    pub open spec fn command(self) -> Command {
        let of_subject = Condition::Equal(Column::Subject, Term::Placeholder(2));
        match self {
            Statement::ReserveCreation { .. } => Command::Insert {
                table: Table::CreationRequests,
                columns: seq![
                    Column::CallerInstance,
                    Column::IdempotencyKey,
                    Column::Name,
                    Column::Slug,
                    Column::OwnerSubject,
                    Column::OrganizationId,
                    Column::OwnerMembershipId,
                ],
                terms: seq![
                    Term::Placeholder(1),
                    Term::Placeholder(2),
                    Term::Placeholder(3),
                    Term::Placeholder(4),
                    Term::Placeholder(5),
                    Term::Placeholder(6),
                    Term::Placeholder(7),
                ],
                unless: seq![Column::CallerInstance, Column::IdempotencyKey],
            },
            Statement::ReadCreation { .. } => Command::Select {
                items: seq![
                    Item::Column(Column::Name),
                    Item::Column(Column::Slug),
                    Item::Column(Column::OwnerSubject),
                    Item::Column(Column::OrganizationId),
                    Item::Column(Column::OwnerMembershipId),
                ],
                table: Table::CreationRequests,
                conditions: of_key(),
                locks: false,
            },
            Statement::InsertOrganization { .. } => Command::Insert {
                table: Table::Organizations,
                columns: seq![Column::OrganizationId, Column::Name, Column::Slug],
                terms: seq![Term::Placeholder(1), Term::Placeholder(2), Term::Placeholder(3)],
                unless: seq![],
            },
            Statement::InsertOwner { .. } => Command::Insert {
                table: Table::Memberships,
                columns: seq![
                    Column::MembershipId,
                    Column::OrganizationId,
                    Column::Subject,
                    Column::IsOwner,
                ],
                terms: seq![
                    Term::Placeholder(1),
                    Term::Placeholder(2),
                    Term::Placeholder(3),
                    Term::True,
                ],
                unless: seq![],
            },
            Statement::ReserveCommand { .. } => Command::Insert {
                table: Table::MembershipCommands,
                columns: seq![
                    Column::CallerInstance,
                    Column::IdempotencyKey,
                    Column::Operation,
                    Column::OrganizationId,
                    Column::Subject,
                ],
                terms: seq![
                    Term::Placeholder(1),
                    Term::Placeholder(2),
                    Term::Placeholder(3),
                    Term::Placeholder(4),
                    Term::Placeholder(5),
                ],
                unless: seq![Column::CallerInstance, Column::IdempotencyKey],
            },
            Statement::ReadCommand { .. } => Command::Select {
                items: seq![
                    Item::Column(Column::Operation),
                    Item::Column(Column::OrganizationId),
                    Item::Column(Column::Subject),
                    Item::Column(Column::MembershipId),
                    Item::Column(Column::ResultRevision),
                    Item::Column(Column::Changed),
                ],
                table: Table::MembershipCommands,
                conditions: of_key(),
                locks: true,
            },
            Statement::CompleteCommand { .. } => Command::Update {
                table: Table::MembershipCommands,
                columns: seq![
                    Column::MembershipId,
                    Column::ResultRevision,
                    Column::Changed,
                    Column::CompletedAt,
                ],
                terms: seq![
                    Term::Placeholder(3),
                    Term::Placeholder(4),
                    Term::Placeholder(5),
                    Term::Now,
                ],
                conditions: of_key().push(Condition::IsNull(Column::CompletedAt)),
            },
            Statement::LockOrganization { .. } => Command::Select {
                items: seq![Item::Test(seq![Condition::IsNull(Column::ArchivedAt)])],
                table: Table::Organizations,
                conditions: seq![of_organization()],
                locks: true,
            },
            Statement::ReadMemberForAddition { .. } => Command::Select {
                items: seq![Item::Column(Column::MembershipId), Item::Column(Column::Revision)],
                table: Table::Memberships,
                conditions: seq![
                    of_organization(),
                    of_subject,
                    Condition::IsNull(Column::RemovedAt),
                ],
                locks: true,
            },
            Statement::InsertMember { .. } => Command::Insert {
                table: Table::Memberships,
                columns: seq![
                    Column::MembershipId,
                    Column::OrganizationId,
                    Column::Subject,
                    Column::IsOwner,
                    Column::Revision,
                ],
                terms: seq![
                    Term::Placeholder(1),
                    Term::Placeholder(2),
                    Term::Placeholder(3),
                    Term::False,
                    Term::One,
                ],
                unless: seq![],
            },
            Statement::ReadMemberForRemoval { .. } => Command::Select {
                items: seq![
                    Item::Column(Column::MembershipId),
                    Item::Column(Column::IsOwner),
                    Item::Column(Column::Revision),
                ],
                table: Table::Memberships,
                conditions: seq![
                    of_organization(),
                    of_subject,
                    Condition::IsNull(Column::RemovedAt),
                ],
                locks: true,
            },
            Statement::RemoveMember { .. } => Command::Update {
                table: Table::Memberships,
                columns: seq![Column::RemovedAt, Column::UpdatedAt, Column::Revision],
                terms: seq![Term::Now, Term::Now, Term::Placeholder(3)],
                conditions: seq![
                    of_organization(),
                    Condition::Equal(Column::MembershipId, Term::Placeholder(2)),
                    Condition::IsNull(Column::RemovedAt),
                ],
            },
            Statement::GetOrganization { .. } => Command::Select {
                items: seq![
                    Item::Column(Column::Name),
                    Item::Column(Column::Slug),
                    Item::Test(seq![Condition::IsNull(Column::ArchivedAt)]),
                    Item::Column(Column::Revision),
                ],
                table: Table::Organizations,
                conditions: seq![of_organization()],
                locks: false,
            },
            Statement::CheckMembership { .. } => Command::Report {
                probes: seq![
                    Probe::Exists {
                        table: Table::Organizations,
                        conditions: seq![of_organization(), Condition::IsNull(Column::ArchivedAt)],
                    },
                    Probe::Newest {
                        test: seq![Condition::IsNull(Column::RemovedAt)],
                        table: Table::Memberships,
                        conditions: seq![of_organization(), of_subject],
                        order: Column::CreatedAt,
                    },
                    Probe::Newest {
                        test: seq![
                            Condition::Holds(Column::IsOwner),
                            Condition::IsNull(Column::RemovedAt),
                        ],
                        table: Table::Memberships,
                        conditions: seq![of_organization(), of_subject],
                        order: Column::CreatedAt,
                    },
                ],
                labels: seq![Label::OrganizationExists, Label::Active, Label::Owner],
            },
        }
    }
}

/// The value of an optional text.
pub open spec fn optional_text(text: Option<Seq<char>>) -> Value {
    match text {
        Some(text) => Value::Text(text),
        None => Value::Null,
    }
}

/// What is bound, as values.
pub open spec fn bound(parameters: Seq<Parameter<Seq<char>>>, started: int) -> Binding {
    Binding {
        values: Seq::new(
            parameters.len(),
            |i: int|
                match parameters[i] {
                    Parameter::Text(text) => Value::Text(text),
                    Parameter::Integer(number) => Value::Integer(number as int),
                    Parameter::Flag(flag) => Value::Flag(flag),
                },
        ),
        now: started,
    }
}

/// What the Plugin's tables demand of their rows, and what they hold by
/// default. References that are checked only at a commit are not among it.
pub open spec fn plugin_schema() -> Schema {
    Schema {
        constraints: |table: Table|
            match table {
                Table::Organizations => seq![
                    Constraint::Unique {
                        name: "organizations_pkey"@,
                        columns: seq![Column::OrganizationId],
                        alive: None,
                    },
                    Constraint::Unique {
                        name: "organizations_active_slug_key"@,
                        columns: seq![Column::Slug],
                        alive: Some(Column::ArchivedAt),
                    },
                ],
                Table::Memberships => seq![
                    Constraint::Unique {
                        name: "organization_memberships_pkey"@,
                        columns: seq![Column::MembershipId],
                        alive: None,
                    },
                    Constraint::References {
                        name: "organization_memberships_organization_id_fkey"@,
                        column: Column::OrganizationId,
                        table: Table::Organizations,
                    },
                    Constraint::Unique {
                        name: "organization_memberships_active_subject_key"@,
                        columns: seq![Column::OrganizationId, Column::Subject],
                        alive: Some(Column::RemovedAt),
                    },
                ],
                _ => seq![],
            },
        defaults: |table: Table, column: Column|
            match (table, column) {
                (Table::Memberships, Column::IsOwner) => Some(Term::False),
                (_, Column::Revision) => Some(Term::One),
                (_, Column::CreatedAt) => Some(Term::Now),
                (_, Column::UpdatedAt) => Some(Term::Now),
                _ => None,
            },
    }
}

/// Whether the row is the Organization.
pub open spec fn is_organization(row: Row, id: Seq<char>, record: OrganizationRecord) -> bool {
    &&& row[Column::OrganizationId] == Value::Text(id)
    &&& row[Column::Name] == Value::Text(record.name)
    &&& row[Column::Slug] == Value::Text(record.slug)
    &&& row[Column::Revision] == Value::Integer(record.revision as int)
    &&& row[Column::ArchivedAt] is Null <==> record.active
}

/// Whether the row is the membership.
pub open spec fn is_membership(row: Row, record: MembershipRecord) -> bool {
    &&& row[Column::MembershipId] == Value::Text(record.membership_id)
    &&& row[Column::OrganizationId] == Value::Text(record.organization_id)
    &&& row[Column::Subject] == Value::Text(record.subject)
    &&& row[Column::IsOwner] == Value::Flag(record.is_owner)
    &&& row[Column::Revision] == Value::Integer(record.revision as int)
    &&& row[Column::RemovedAt] is Null <==> record.active
    &&& row[Column::CreatedAt] == Value::Time(record.created_at)
}

/// Whether the row is the receipt of the creation.
pub open spec fn is_creation(row: Row, key: ReceiptKey, record: CreationRow<Seq<char>>) -> bool {
    &&& row[Column::CallerInstance] == Value::Text(key.0)
    &&& row[Column::IdempotencyKey] == Value::Text(key.1)
    &&& row[Column::Name] == Value::Text(record.name)
    &&& row[Column::Slug] == Value::Text(record.slug)
    &&& row[Column::OwnerSubject] == Value::Text(record.owner_subject)
    &&& row[Column::OrganizationId] == Value::Text(record.organization_id)
    &&& row[Column::OwnerMembershipId] == Value::Text(record.owner_membership_id)
}

/// Whether the row is the receipt of the command.
pub open spec fn is_command(row: Row, key: ReceiptKey, record: CommandRow<Seq<char>>) -> bool {
    &&& row[Column::CallerInstance] == Value::Text(key.0)
    &&& row[Column::IdempotencyKey] == Value::Text(key.1)
    &&& row[Column::Operation] == Value::Text(record.operation)
    &&& row[Column::OrganizationId] == Value::Text(record.organization_id)
    &&& row[Column::Subject] == Value::Text(record.subject)
    &&& row[Column::MembershipId] == optional_text(record.membership_id)
    &&& row[Column::ResultRevision] == (match record.result_revision {
        Some(revision) => Value::Integer(revision as int),
        None => Value::Null,
    })
    &&& row[Column::Changed] == (match record.changed {
        Some(changed) => Value::Flag(changed),
        None => Value::Null,
    })
    &&& row[Column::CompletedAt] is Null <==> record.changed is None
}

/// The key that a row of receipts is under.
pub open spec fn key_of(row: Row) -> ReceiptKey {
    (row[Column::CallerInstance]->Text_0, row[Column::IdempotencyKey]->Text_0)
}

/// Whether the rows are the Organizations, one row for each.
pub open spec fn are_organizations(
    rows: Seq<Row>,
    records: Map<Seq<char>, OrganizationRecord>,
) -> bool {
    &&& forall|i: int|
        0 <= i < rows.len() ==> {
            let id = (#[trigger] rows[i])[Column::OrganizationId]->Text_0;
            records.contains_key(id) && is_organization(rows[i], id, records[id])
        }
    &&& forall|id: Seq<char>| #[trigger]
        records.contains_key(id) ==> exists|i: int|
            0 <= i < rows.len() && (#[trigger] rows[i])[Column::OrganizationId] == Value::Text(id)
}

/// Whether the rows are the memberships, in the same order. No two have the
/// same identifier, and no two active ones are of the same subject.
pub open spec fn are_memberships(rows: Seq<Row>, records: Seq<MembershipRecord>) -> bool {
    &&& rows.len() == records.len()
    &&& forall|i: int| 0 <= i < rows.len() ==> is_membership(#[trigger] rows[i], records[i])
    &&& forall|i: int, j: int|
        #![trigger records[i], records[j]]
        0 <= i < j < records.len() ==> records[i].membership_id != records[j].membership_id && !(
        records[i].active && records[j].active && records[i].is_of(
            records[j].organization_id,
            records[j].subject,
        ))
}

/// Whether the rows are the receipts of creations, one row for each.
pub open spec fn are_creations(
    rows: Seq<Row>,
    records: Map<ReceiptKey, CreationRow<Seq<char>>>,
) -> bool {
    &&& forall|i: int|
        0 <= i < rows.len() ==> {
            let key = key_of(#[trigger] rows[i]);
            records.contains_key(key) && is_creation(rows[i], key, records[key])
        }
    &&& forall|key: ReceiptKey| #[trigger]
        records.contains_key(key) ==> exists|i: int|
            0 <= i < rows.len() && key_of(#[trigger] rows[i]) == key
}

/// Whether the rows are the receipts of commands, one row for each.
pub open spec fn are_commands(
    rows: Seq<Row>,
    records: Map<ReceiptKey, CommandRow<Seq<char>>>,
) -> bool {
    &&& forall|i: int|
        0 <= i < rows.len() ==> {
            let key = key_of(#[trigger] rows[i]);
            records.contains_key(key) && is_command(rows[i], key, records[key])
        }
    &&& forall|key: ReceiptKey| #[trigger]
        records.contains_key(key) ==> exists|i: int|
            0 <= i < rows.len() && key_of(#[trigger] rows[i]) == key
    &&& forall|i: int, j: int|
        #![trigger rows[i], rows[j]]
        0 <= i < j < rows.len() ==> key_of(rows[i]) != key_of(rows[j])
}

impl Store {
    /// Whether the database holds the tables. What the columns hold that the
    /// tables do not speak of, such as when a row was updated, is open.
    pub open spec fn is_held_in(self, database: Database) -> bool {
        &&& are_organizations(database.organizations, self.organizations)
        &&& are_memberships(database.memberships, self.memberships)
        &&& are_creations(database.creation_requests, self.creations)
        &&& are_commands(database.membership_commands, self.commands)
    }
}

impl Statement<Seq<char>> {
    /// What is handed back of how the statement ended: the columns of a row in
    /// the order in which they were returned, or under their labels.
    pub open spec fn reply(self, outcome: Outcome) -> Reply<Seq<char>> {
        match (self, outcome) {
            (_, Outcome::Affected(count)) => Reply::RowsAffected(count as u64),
            (_, Outcome::Broken(constraint)) => Reply::Failed { constraint: Some(constraint) },
            (Statement::ReadCreation { .. }, Outcome::Returned(Some(values))) => Reply::Creation(
                CreationRow {
                    name: values[0]->Text_0,
                    slug: values[1]->Text_0,
                    owner_subject: values[2]->Text_0,
                    organization_id: values[3]->Text_0,
                    owner_membership_id: values[4]->Text_0,
                },
            ),
            (Statement::ReadCommand { .. }, Outcome::Returned(Some(values))) => Reply::Command(
                CommandRow {
                    operation: values[0]->Text_0,
                    organization_id: values[1]->Text_0,
                    subject: values[2]->Text_0,
                    membership_id: match values[3] {
                        Value::Text(text) => Some(text),
                        _ => None,
                    },
                    result_revision: match values[4] {
                        Value::Integer(number) => Some(number as i64),
                        _ => None,
                    },
                    changed: match values[5] {
                        Value::Flag(flag) => Some(flag),
                        _ => None,
                    },
                },
            ),
            (Statement::LockOrganization { .. }, Outcome::Returned(row)) => Reply::Organization(
                match row {
                    Some(values) => Some(values[0]->Flag_0),
                    None => None,
                },
            ),
            (Statement::ReadMemberForAddition { .. }, Outcome::Returned(row)) => Reply::Member(
                match row {
                    Some(values) => Some(
                        MemberRow {
                            membership_id: values[0]->Text_0,
                            revision: values[1]->Integer_0 as i64,
                        },
                    ),
                    None => None,
                },
            ),
            (Statement::ReadMemberForRemoval { .. }, Outcome::Returned(row)) => Reply::OwnedMember(
                match row {
                    Some(values) => Some(
                        OwnedMemberRow {
                            membership_id: values[0]->Text_0,
                            is_owner: values[1]->Flag_0,
                            revision: values[2]->Integer_0 as i64,
                        },
                    ),
                    None => None,
                },
            ),
            (Statement::GetOrganization { .. }, Outcome::Returned(row)) => Reply::Directory(
                match row {
                    Some(values) => Some(
                        DirectoryRow {
                            name: values[0]->Text_0,
                            slug: values[1]->Text_0,
                            active: values[2]->Flag_0,
                            revision: values[3]->Integer_0 as i64,
                        },
                    ),
                    None => None,
                },
            ),
            (Statement::CheckMembership { .. }, Outcome::Reported(values)) => Reply::Standing(
                StandingRow {
                    organization_exists: flag(values[Label::OrganizationExists]),
                    active: flag(values[Label::Active]),
                    owner: flag(values[Label::Owner]),
                },
            ),
            _ => Reply::Failed { constraint: None },
        }
    }

    /// Whether the statement, run in a transaction that started at `started`,
    /// may leave `after` and end so: its text, read as SQL, on its bound values.
    pub open spec fn may_end(
        self,
        started: int,
        before: Database,
        after: Database,
        outcome: Outcome,
    ) -> bool {
        self.command().may_end(
            plugin_schema(),
            bound(self.values(), started),
            before,
            after,
            outcome,
        )
    }
}

/// What a column holds if it is true or false.
pub open spec fn flag(value: Value) -> Option<bool> {
    match value {
        Value::Flag(flag) => Some(flag),
        _ => None,
    }
}

} // verus!
