//! The tables as the database holds them, and the Module's statements in SQL.

use vstd::prelude::*;

use crate::postgres_module::statements::{AccessRow, ParameterView, Reply, Statement};
use crate::postgres_module::store::{MembershipRecord, RoleRecord, Store};
use crate::postgres_plugin::tables;
use crate::sql::{
    Binding, Column, Command, Condition, Constraint, Database, Label, Outcome, Probe, Row, Schema,
    Table, Term, Value,
};

verus! {

impl Statement<Seq<char>> {
    /// The statement as a command.
    pub open spec fn command(self) -> Command {
        match self {
            Statement::InsertOrganization { .. } => Command::Insert {
                table: Table::Organizations,
                columns: seq![Column::OrganizationId, Column::Name, Column::Slug],
                terms: seq![Term::Placeholder(1), Term::Placeholder(2), Term::Placeholder(3)],
                unless: seq![],
            },
            Statement::InsertOwnerRole { .. } => Command::Insert {
                table: Table::Roles,
                columns: seq![
                    Column::RoleId,
                    Column::OrganizationId,
                    Column::Name,
                    Column::Permissions,
                    Column::SystemKey,
                ],
                terms: seq![
                    Term::Placeholder(1),
                    Term::Placeholder(2),
                    Term::Quoted("Owner"@),
                    Term::Placeholder(3),
                    Term::Quoted("owner"@),
                ],
                unless: seq![],
            },
            Statement::InsertMembership { .. } => Command::Insert {
                table: Table::Memberships,
                columns: seq![
                    Column::MembershipId,
                    Column::OrganizationId,
                    Column::Subject,
                    Column::RoleId,
                ],
                terms: seq![
                    Term::Placeholder(1),
                    Term::Placeholder(2),
                    Term::Placeholder(3),
                    Term::Placeholder(4),
                ],
                unless: seq![],
            },
            Statement::CheckPermission { .. } => Command::Report {
                probes: seq![
                    Probe::Exists {
                        table: Table::Organizations,
                        conditions: seq![
                            tables::of_organization(),
                            Condition::IsNull(Column::ArchivedAt),
                        ],
                    },
                    Probe::Joined {
                        left: Table::Memberships,
                        right: Table::Roles,
                        on: seq![Column::RoleId, Column::OrganizationId],
                        conditions: seq![
                            tables::of_organization(),
                            Condition::Equal(Column::Subject, Term::Placeholder(2)),
                            Condition::IsNull(Column::RemovedAt),
                        ],
                        listed: Term::Placeholder(3),
                        list: Column::Permissions,
                    },
                ],
                labels: seq![Label::OrganizationExists, Label::Allowed],
            },
        }
    }
}

/// What is bound, as values.
pub open spec fn bound(parameters: Seq<ParameterView>, started: int) -> Binding {
    Binding {
        values: Seq::new(
            parameters.len(),
            |i: int|
                match parameters[i] {
                    ParameterView::Text(text) => Value::Text(text),
                    ParameterView::Texts(texts) => Value::Texts(texts),
                },
        ),
        now: started,
    }
}

/// What the Module's tables demand of their rows, and what they hold by
/// default.
pub open spec fn module_schema() -> Schema {
    Schema {
        constraints: |table: Table|
            match table {
                Table::Organizations => seq![
                    Constraint::Unique {
                        name: "organizations_pkey"@,
                        columns: seq![Column::OrganizationId],
                        alive: None,
                    },
                    Constraint::Unique {
                        name: "organizations_active_slug_key"@,
                        columns: seq![Column::Slug],
                        alive: Some(Column::ArchivedAt),
                    },
                ],
                Table::Roles => seq![
                    Constraint::Unique {
                        name: "organization_roles_pkey"@,
                        columns: seq![Column::RoleId],
                        alive: None,
                    },
                    Constraint::References {
                        name: "organization_roles_organization_id_fkey"@,
                        column: Column::OrganizationId,
                        table: Table::Organizations,
                    },
                ],
                Table::Memberships => seq![
                    Constraint::Unique {
                        name: "organization_memberships_pkey"@,
                        columns: seq![Column::MembershipId],
                        alive: None,
                    },
                    Constraint::References {
                        name: "organization_memberships_organization_id_fkey"@,
                        column: Column::OrganizationId,
                        table: Table::Organizations,
                    },
                    Constraint::References {
                        name: "organization_memberships_role_id_fkey"@,
                        column: Column::RoleId,
                        table: Table::Roles,
                    },
                    Constraint::Unique {
                        name: "organization_memberships_active_subject_key"@,
                        columns: seq![Column::OrganizationId, Column::Subject],
                        alive: Some(Column::RemovedAt),
                    },
                ],
                _ => seq![],
            },
        defaults: |table: Table, column: Column|
            match column {
                Column::Revision => Some(Term::One),
                Column::CreatedAt => Some(Term::Now),
                Column::UpdatedAt => Some(Term::Now),
                _ => None,
            },
    }
}

/// Whether the row is the role. The owner role is known by its key.
pub open spec fn is_role(row: Row, id: Seq<char>, record: RoleRecord) -> bool {
    &&& row[Column::RoleId] == Value::Text(id)
    &&& row[Column::OrganizationId] == Value::Text(record.organization_id)
    &&& row[Column::Permissions] == Value::Texts(record.permissions)
    &&& row[Column::SystemKey] == Value::Text("owner"@) <==> record.is_owner
}

/// Whether the row is the membership.
pub open spec fn is_membership(row: Row, record: MembershipRecord) -> bool {
    &&& row[Column::MembershipId] == Value::Text(record.membership_id)
    &&& row[Column::OrganizationId] == Value::Text(record.organization_id)
    &&& row[Column::Subject] == Value::Text(record.subject)
    &&& row[Column::RoleId] == Value::Text(record.role_id)
    &&& row[Column::Revision] == Value::Integer(record.revision as int)
    &&& row[Column::RemovedAt] is Null <==> record.active
    &&& row[Column::CreatedAt] == Value::Time(record.created_at)
}

/// Whether the rows are the roles, one row for each.
pub open spec fn are_roles(rows: Seq<Row>, records: Map<Seq<char>, RoleRecord>) -> bool {
    &&& forall|i: int|
        0 <= i < rows.len() ==> {
            let id = (#[trigger] rows[i])[Column::RoleId]->Text_0;
            records.contains_key(id) && is_role(rows[i], id, records[id])
        }
    &&& forall|id: Seq<char>| #[trigger]
        records.contains_key(id) ==> exists|i: int|
            0 <= i < rows.len() && (#[trigger] rows[i])[Column::RoleId] == Value::Text(id)
}

impl Store {
    /// Whether the database holds the tables.
    pub open spec fn is_held_in(self, database: Database) -> bool {
        &&& tables::are_organizations(database.organizations, self.organizations)
        &&& are_roles(database.roles, self.roles)
        &&& database.memberships.len() == self.memberships.len()
        &&& forall|i: int|
            0 <= i < self.memberships.len() ==> is_membership(
                #[trigger] database.memberships[i],
                self.memberships[i],
            )
    }
}

impl Statement<Seq<char>> {
    /// What is handed back of how the statement ended.
    pub open spec fn reply(self, outcome: Outcome) -> Reply<Seq<char>> {
        match (self, outcome) {
            (_, Outcome::Affected(count)) => Reply::RowsAffected(count as u64),
            (_, Outcome::Broken(constraint)) => Reply::Failed { constraint: Some(constraint) },
            (Statement::CheckPermission { .. }, Outcome::Reported(values)) => Reply::Access(
                AccessRow {
                    organization_exists: tables::flag(values[Label::OrganizationExists]),
                    allowed: tables::flag(values[Label::Allowed]),
                },
            ),
            _ => Reply::Failed { constraint: None },
        }
    }

    /// Whether the statement, run in a transaction that started at `started`,
    /// may leave `after` and end so: its text, read as SQL, on its bound values.
    pub open spec fn may_end(
        self,
        started: int,
        before: Database,
        after: Database,
        outcome: Outcome,
    ) -> bool {
        self.command().may_end(
            module_schema(),
            bound(self.values(), started),
            before,
            after,
            outcome,
        )
    }
}

} // verus!
