//! What the Module's statements do to the tables is what their texts say.

use vstd::prelude::*;

use crate::postgres_module::reading;
use crate::postgres_module::statements;
use crate::postgres_module::statements::Statement;
use crate::postgres_module::store::{MembershipRecord, RoleRecord, Store};
use crate::postgres_module::tables;
use crate::postgres_plugin::tables as plugin_tables;
use crate::sql;
use crate::sql::{
    Binding, Column, Condition, Constraint, Database, Label, Outcome, Probe, Row, Table, Term,
    Value,
};

verus! {

#[verifier::rlimit(30)]
proof fn lemma_organization_is_inserted(
    statement: Statement<Seq<char>>,
    store: Store,
    started: int,
    before: Database,
    after: Database,
    outcome: Outcome,
)
    requires
        statement is InsertOrganization,
        store.is_held_in(before),
        statement.may_end(started, before, after, outcome),
    ensures
        store.executed(statement, started).0.is_held_in(after),
        store.executed(statement, started).1 == statement.reply(outcome),
{
    let schema = tables::module_schema();
    let binding = tables::bound(statement.values(), started);
    let columns = statement.command()->Insert_columns;
    let terms = statement.command()->Insert_terms;
    let rows = before.organizations;
    reveal_with_fuel(Binding::filled, 4);
    reveal_with_fuel(sql::broken, 3);
    let row = binding.filled(
        binding.fresh(schema, Table::Organizations),
        columns,
        terms,
        columns.len() as int,
    );
    let id = statement->InsertOrganization_organization_id;
    let slug = statement->InsertOrganization_slug;
    let (stored, _) = store.executed(statement, started);
    let constraints = (schema.constraints)(Table::Organizations);
    assert forall|i: int| 0 <= i < rows.len() implies sql::agree(
        #[trigger] rows[i],
        row,
        seq![Column::OrganizationId],
    ) == (rows[i][Column::OrganizationId] == Value::Text(id)) && sql::agree(
        rows[i],
        row,
        seq![Column::Slug],
    ) == (rows[i][Column::Slug] == Value::Text(slug)) by {
        sql::lemma_agrees_on_one(rows[i], row, Column::OrganizationId);
        sql::lemma_agrees_on_one(rows[i], row, Column::Slug);
    }
    assert(sql::breaks(before, Table::Organizations, row, constraints[0])
        == store.organizations.contains_key(id)) by {
        if store.organizations.contains_key(id) {
            let i = choose|i: int|
                0 <= i < rows.len() && (#[trigger] rows[i])[Column::OrganizationId] == Value::Text(
                    id,
                );
            assert(before.table(Table::Organizations)[i] == rows[i]);
        }
    }
    assert(sql::breaks(before, Table::Organizations, row, constraints[1]) == store.slug_taken(
        slug,
    )) by {
        if store.slug_taken(slug) {
            let other = choose|other: Seq<char>| #[trigger]
                store.organizations.contains_key(other) && store.organizations[other].active
                    && store.organizations[other].slug == slug;
            let i = choose|i: int|
                0 <= i < rows.len() && (#[trigger] rows[i])[Column::OrganizationId] == Value::Text(
                    other,
                );
            assert(before.table(Table::Organizations)[i] == rows[i]);
        }
        if sql::breaks(before, Table::Organizations, row, constraints[1]) {
            let i = choose|i: int|
                0 <= i < rows.len() && sql::agree(
                    #[trigger] before.table(Table::Organizations)[i],
                    row,
                    seq![Column::Slug],
                ) && before.table(Table::Organizations)[i][Column::ArchivedAt] is Null;
            assert(rows[i][Column::Slug] == Value::Text(slug));
            assert(store.organizations.contains_key(rows[i][Column::OrganizationId]->Text_0));
        }
    }
    if !store.organizations.contains_key(id) && !store.slug_taken(slug) {
        let pushed = rows.push(row);
        assert(after.organizations == pushed);
        assert(plugin_tables::is_organization(row, id, stored.organizations[id]));
        assert(plugin_tables::are_organizations(pushed, stored.organizations)) by {
            assert forall|other: Seq<char>| #[trigger]
                stored.organizations.contains_key(other) implies exists|i: int|
                0 <= i < pushed.len() && (#[trigger] pushed[i])[Column::OrganizationId]
                    == Value::Text(other) by {
                if other == id {
                    assert(pushed[rows.len() as int][Column::OrganizationId] == Value::Text(id));
                } else {
                    assert(store.organizations.contains_key(other));
                    let i = choose|i: int|
                        0 <= i < rows.len() && (#[trigger] rows[i])[Column::OrganizationId]
                            == Value::Text(other);
                    assert(pushed[i][Column::OrganizationId] == Value::Text(other));
                }
            }
        }
    }
}

/// An Organization is stored exactly if a row may refer to it.
proof fn lemma_organization_is_referred_to(
    store: Store,
    before: Database,
    table: Table,
    row: Row,
    name: Seq<char>,
    id: Seq<char>,
)
    requires
        store.is_held_in(before),
        row[Column::OrganizationId] == Value::Text(id),
    ensures
        sql::breaks(
            before,
            table,
            row,
            Constraint::References {
                name,
                column: Column::OrganizationId,
                table: Table::Organizations,
            },
        ) != store.organizations.contains_key(id),
{
    if store.organizations.contains_key(id) {
        let i = choose|i: int|
            0 <= i < before.organizations.len() && (
            #[trigger] before.organizations[i])[Column::OrganizationId] == Value::Text(id);
        assert(before.table(Table::Organizations)[i] == before.organizations[i]);
    }
}

#[verifier::rlimit(40)]
proof fn lemma_owner_role_is_inserted(
    statement: Statement<Seq<char>>,
    store: Store,
    started: int,
    before: Database,
    after: Database,
    outcome: Outcome,
)
    requires
        statement is InsertOwnerRole,
        store.is_held_in(before),
        statement.may_end(started, before, after, outcome),
    ensures
        store.executed(statement, started).0.is_held_in(after),
        store.executed(statement, started).1 == statement.reply(outcome),
{
    let schema = tables::module_schema();
    let binding = tables::bound(statement.values(), started);
    let columns = statement.command()->Insert_columns;
    let terms = statement.command()->Insert_terms;
    let rows = before.roles;
    reveal_with_fuel(Binding::filled, 6);
    reveal_with_fuel(sql::broken, 5);
    let row = binding.filled(
        binding.fresh(schema, Table::Roles),
        columns,
        terms,
        columns.len() as int,
    );
    let constraints = (schema.constraints)(Table::Roles);
    let role_id = statement->InsertOwnerRole_role_id;
    let organization_id = statement->InsertOwnerRole_organization_id;
    let record = RoleRecord {
        organization_id,
        permissions: statements::owner_permissions(),
        is_owner: true,
    };
    assert(tables::is_role(row, role_id, record));
    assert forall|i: int| 0 <= i < rows.len() implies sql::agree(
        #[trigger] rows[i],
        row,
        seq![Column::RoleId],
    ) == (rows[i][Column::RoleId] == Value::Text(role_id)) by {
        sql::lemma_agrees_on_one(rows[i], row, Column::RoleId);
    }
    assert(sql::breaks(before, Table::Roles, row, constraints[0]) == store.roles.contains_key(
        role_id,
    )) by {
        if store.roles.contains_key(role_id) {
            let i = choose|i: int|
                0 <= i < rows.len() && (#[trigger] rows[i])[Column::RoleId] == Value::Text(role_id);
            assert(before.table(Table::Roles)[i] == rows[i]);
        }
    }
    lemma_organization_is_referred_to(
        store,
        before,
        Table::Roles,
        row,
        "organization_roles_organization_id_fkey"@,
        organization_id,
    );
    let (stored, reply) = store.executed(statement, started);
    if reply is RowsAffected {
        let pushed = rows.push(row);
        assert(after.roles == pushed);
        assert(tables::are_roles(pushed, stored.roles)) by {
            assert forall|other: Seq<char>| #[trigger]
                stored.roles.contains_key(other) implies exists|i: int|
                0 <= i < pushed.len() && (#[trigger] pushed[i])[Column::RoleId] == Value::Text(
                    other,
                ) by {
                if other == role_id {
                    assert(pushed[rows.len() as int][Column::RoleId] == Value::Text(role_id));
                } else {
                    assert(store.roles.contains_key(other));
                    let i = choose|i: int|
                        0 <= i < rows.len() && (#[trigger] rows[i])[Column::RoleId] == Value::Text(
                            other,
                        );
                    assert(pushed[i][Column::RoleId] == Value::Text(other));
                }
            }
        }
    }
}

#[verifier::rlimit(40)]
proof fn lemma_membership_is_inserted(
    statement: Statement<Seq<char>>,
    store: Store,
    started: int,
    before: Database,
    after: Database,
    outcome: Outcome,
)
    requires
        statement is InsertMembership,
        store.is_held_in(before),
        statement.may_end(started, before, after, outcome),
    ensures
        store.executed(statement, started).0.is_held_in(after),
        store.executed(statement, started).1 == statement.reply(outcome),
{
    let schema = tables::module_schema();
    let binding = tables::bound(statement.values(), started);
    let columns = statement.command()->Insert_columns;
    let terms = statement.command()->Insert_terms;
    let rows = before.memberships;
    reveal_with_fuel(Binding::filled, 6);
    reveal_with_fuel(sql::broken, 5);
    let row = binding.filled(
        binding.fresh(schema, Table::Memberships),
        columns,
        terms,
        columns.len() as int,
    );
    let constraints = (schema.constraints)(Table::Memberships);
    let membership_id = statement->InsertMembership_membership_id;
    let organization_id = statement->InsertMembership_organization_id;
    let subject = statement->InsertMembership_subject;
    let role_id = statement->InsertMembership_role_id;
    let record = MembershipRecord {
        membership_id,
        organization_id,
        subject,
        role_id,
        active: true,
        revision: 1,
        created_at: started,
    };
    assert(tables::is_membership(row, record));
    assert forall|i: int| 0 <= i < rows.len() implies sql::agree(
        #[trigger] rows[i],
        row,
        seq![Column::MembershipId],
    ) == (store.memberships[i].membership_id == membership_id) && sql::agree(
        rows[i],
        row,
        seq![Column::OrganizationId, Column::Subject],
    ) == (store.memberships[i].organization_id == organization_id && store.memberships[i].subject
        == subject) by {
        assert(tables::is_membership(rows[i], store.memberships[i]));
        sql::lemma_agrees_on_one(rows[i], row, Column::MembershipId);
        sql::lemma_agrees_on_two(rows[i], row, Column::OrganizationId, Column::Subject);
    }
    assert(sql::breaks(before, Table::Memberships, row, constraints[0]) == store.has_membership(
        membership_id,
    )) by {
        if store.has_membership(membership_id) {
            let i = choose|i: int|
                0 <= i < store.memberships.len() && (
                #[trigger] store.memberships[i]).membership_id == membership_id;
            assert(before.table(Table::Memberships)[i] == rows[i]);
        }
    }
    lemma_organization_is_referred_to(
        store,
        before,
        Table::Memberships,
        row,
        "organization_memberships_organization_id_fkey"@,
        organization_id,
    );
    assert(sql::breaks(before, Table::Memberships, row, constraints[2])
        != store.roles.contains_key(role_id)) by {
        if store.roles.contains_key(role_id) {
            let i = choose|i: int|
                0 <= i < before.roles.len() && (#[trigger] before.roles[i])[Column::RoleId]
                    == Value::Text(role_id);
            assert(before.table(Table::Roles)[i] == before.roles[i]);
        }
    }
    assert(sql::breaks(before, Table::Memberships, row, constraints[3]) == store.has_member(
        organization_id,
        subject,
    )) by {
        if store.has_member(organization_id, subject) {
            let i = choose|i: int|
                0 <= i < store.memberships.len() && (#[trigger] store.memberships[i]).active
                    && store.memberships[i].organization_id == organization_id
                    && store.memberships[i].subject == subject;
            assert(before.table(Table::Memberships)[i] == rows[i]);
        }
        if sql::breaks(before, Table::Memberships, row, constraints[3]) {
            let i = choose|i: int|
                0 <= i < rows.len() && sql::agree(
                    #[trigger] before.table(Table::Memberships)[i],
                    row,
                    seq![Column::OrganizationId, Column::Subject],
                ) && before.table(Table::Memberships)[i][Column::RemovedAt] is Null;
            assert(tables::is_membership(rows[i], store.memberships[i]));
            assert(store.memberships[i].active);
        }
    }
}

proof fn lemma_permission_is_checked(
    statement: Statement<Seq<char>>,
    store: Store,
    started: int,
    before: Database,
    after: Database,
    outcome: Outcome,
)
    requires
        statement is CheckPermission,
        store.is_held_in(before),
        statement.may_end(started, before, after, outcome),
    ensures
        store.executed(statement, started).0.is_held_in(after),
        store.executed(statement, started).1 == statement.reply(outcome),
{
    let organization_id = statement->CheckPermission_organization_id;
    let subject = statement->CheckPermission_subject;
    let permission = statement->CheckPermission_permission;
    let binding = tables::bound(statement.values(), started);
    let probes = statement.command()->probes;
    let labels = statement.command()->labels;
    let values = outcome->Reported_0;
    assert(binding.may_report(before, probes[0], values[labels[0]]));
    assert(binding.may_report(before, probes[1], values[labels[1]]));
    let organizations = before.organizations;
    let alive = Condition::IsNull(Column::ArchivedAt);
    let active_organization = seq![plugin_tables::of_organization(), alive];
    assert(probes[0] == Probe::Exists {
        table: Table::Organizations,
        conditions: active_organization,
    });
    assert forall|i: int| 0 <= i < organizations.len() implies binding.passes(
        active_organization,
        #[trigger] organizations[i],
    ) == (organizations[i][Column::OrganizationId] == Value::Text(organization_id)
        && store.is_active(organization_id)) by {
        sql::lemma_passes_two(binding, plugin_tables::of_organization(), alive, organizations[i]);
    }
    if store.is_active(organization_id) {
        let i = choose|i: int|
            0 <= i < organizations.len() && (
            #[trigger] organizations[i])[Column::OrganizationId] == Value::Text(organization_id);
        assert(binding.passes(
            active_organization,
            before.table(Table::Organizations)[i],
        ));
    }
    let on = seq![Column::RoleId, Column::OrganizationId];
    let of_subject = Condition::Equal(Column::Subject, Term::Placeholder(2));
    let present = Condition::IsNull(Column::RemovedAt);
    let conditions = seq![plugin_tables::of_organization(), of_subject, present];
    let listed = Term::Placeholder(3);
    let list = Column::Permissions;
    let rows = before.memberships;
    let roles = before.roles;
    let records = store.memberships;
    assert(probes[1] == Probe::Joined {
        left: Table::Memberships,
        right: Table::Roles,
        on,
        conditions,
        listed,
        list,
    });
    assert(on[0] == Column::RoleId);
    assert(on[1] == Column::OrganizationId);
    assert forall|i: int| 0 <= i < rows.len() implies binding.passes(
        conditions,
        #[trigger] rows[i],
    ) == (records[i].active && records[i].organization_id == organization_id && records[i].subject
        == subject) by {
        sql::lemma_passes_three(
            binding,
            plugin_tables::of_organization(),
            of_subject,
            present,
            rows[i],
        );
        assert(tables::is_membership(rows[i], records[i]));
    }
    if store.allows(organization_id, subject, permission) {
        let i = choose|i: int|
            0 <= i < records.len() && (#[trigger] records[i]).active && records[i].organization_id
                == organization_id && records[i].subject == subject && store.has_role_at(i)
                && store.roles[records[i].role_id].permissions.contains(permission);
        assert(tables::is_membership(rows[i], records[i]));
        let j = choose|j: int|
            0 <= j < roles.len() && (#[trigger] roles[j])[Column::RoleId] == Value::Text(
                records[i].role_id,
            );
        assert(binding.is_joined_at(rows, i, roles, j, on, conditions, listed, list));
    }
    if binding.is_joined(rows, roles, on, conditions, listed, list) {
        let (i, j) = choose|i: int, j: int|
            binding.is_joined_at(rows, i, roles, j, on, conditions, listed, list);
        assert(tables::is_membership(rows[i], records[i]));
        assert(roles[j][on[0]] == rows[i][on[0]]);
        assert(roles[j][on[1]] == rows[i][on[1]]);
        let id = roles[j][Column::RoleId]->Text_0;
        assert(tables::is_role(roles[j], id, store.roles[id]));
        assert(records[i].active && store.has_role_at(i));
        assert(store.allows(organization_id, subject, permission));
    }
    assert(labels[0] == Label::OrganizationExists);
    assert(labels[1] == Label::Allowed);
    assert(binding.is_joined(rows, roles, on, conditions, listed, list) == store.allows(
        organization_id,
        subject,
        permission,
    ));
    assert(values[Label::Allowed] == Value::Flag(
        store.allows(organization_id, subject, permission),
    ));
    assert(values[Label::OrganizationExists] == Value::Flag(store.is_active(organization_id)));
}

/// A database without a row holds the tables without a row.
pub proof fn law_empty_tables_are_held(database: Database)
    requires
        forall|table: Table| #[trigger] database.table(table) == Seq::<Row>::empty(),
    ensures
        Store::empty().is_held_in(database),
{
    assert(database.table(Table::Organizations) == Seq::<Row>::empty());
    assert(database.table(Table::Roles) == Seq::<Row>::empty());
    assert(database.table(Table::Memberships) == Seq::<Row>::empty());
    assert(database.table(Table::CreationRequests) == Seq::<Row>::empty());
    assert(database.table(Table::MembershipCommands) == Seq::<Row>::empty());
}

/// Every statement ends, whatever the tables hold.
pub proof fn law_statement_ends(statement: Statement<Seq<char>>, started: int, before: Database)
    ensures
        exists|after: Database, outcome: Outcome| #[trigger]
            statement.may_end(started, before, after, outcome),
{
    let schema = tables::module_schema();
    let binding = tables::bound(statement.values(), started);
    sql::law_command_ends(statement.command(), schema, binding, before);
    let (after, outcome) = choose|after: Database, outcome: Outcome| #[trigger]
        statement.command().may_end(schema, binding, before, after, outcome);
    assert(statement.may_end(started, before, after, outcome));
}

/// What a statement's text says, run on its bound values against a database
/// that holds the tables, is what the tables are taken to do: the database then
/// holds the tables after the statement, and hands back the same reply.
pub proof fn law_statement_does_what_its_text_says(
    statement: Statement<Seq<char>>,
    store: Store,
    started: int,
    before: Database,
    after: Database,
    outcome: Outcome,
)
    requires
        store.is_held_in(before),
        statement.may_end(started, before, after, outcome),
    ensures
        sql::reads_as(statement.text(), statement.command()),
        store.executed(statement, started).0.is_held_in(after),
        store.executed(statement, started).1 == statement.reply(outcome),
{
    reading::lemma_statement_reads(statement);
    match statement {
        Statement::InsertOrganization { .. } => {
            lemma_organization_is_inserted(statement, store, started, before, after, outcome);
        },
        Statement::InsertOwnerRole { .. } => {
            lemma_owner_role_is_inserted(statement, store, started, before, after, outcome);
        },
        Statement::InsertMembership { .. } => {
            lemma_membership_is_inserted(statement, store, started, before, after, outcome);
        },
        Statement::CheckPermission { .. } => {
            lemma_permission_is_checked(statement, store, started, before, after, outcome);
        },
    }
}

} // verus!
