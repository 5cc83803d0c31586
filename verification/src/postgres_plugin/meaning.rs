//! What the Plugin's statements do to the tables is what their texts say.

use vstd::prelude::*;

use crate::postgres_plugin::reading;
use crate::postgres_plugin::statements::{Reply, StandingRow, Statement};
use crate::postgres_plugin::store;
use crate::postgres_plugin::store::{MembershipRecord, ReceiptKey, Store};
use crate::postgres_plugin::tables;
use crate::sql;
use crate::sql::{
    Binding, Column, Condition, Database, Item, Label, Outcome, Probe, Row, Table, Term, Value,
};

verus! {

/// The receipts under a key are those that a statement on the key sees.
proof fn lemma_key_passes(binding: Binding, key: ReceiptKey, row: Row)
    requires
        binding.values.len() >= 2,
        binding.values[0] == Value::Text(key.0),
        binding.values[1] == Value::Text(key.1),
        row[Column::CallerInstance] is Text,
        row[Column::IdempotencyKey] is Text,
    ensures
        binding.passes(tables::of_key(), row) == (tables::key_of(row) == key),
{
    sql::lemma_passes_two(
        binding,
        Condition::Equal(Column::CallerInstance, Term::Placeholder(1)),
        Condition::Equal(Column::IdempotencyKey, Term::Placeholder(2)),
        row,
    );
}

proof fn lemma_creation_is_read(
    statement: Statement<Seq<char>>,
    store: Store,
    started: int,
    before: Database,
    after: Database,
    outcome: Outcome,
)
    requires
        statement is ReadCreation,
        store.is_held_in(before),
        statement.may_end(started, before, after, outcome),
    ensures
        store.executed(statement, started).0.is_held_in(after),
        store.executed(statement, started).1 == statement.reply(outcome),
{
    let key = (statement->ReadCreation_caller_instance, statement->ReadCreation_idempotency_key);
    let binding = tables::bound(statement.values(), started);
    let rows = before.creation_requests;
    assert forall|i: int| 0 <= i < rows.len() implies binding.passes(
        tables::of_key(),
        #[trigger] rows[i],
    ) == (tables::key_of(rows[i]) == key) by {
        lemma_key_passes(binding, key, rows[i]);
    }
}

proof fn lemma_command_is_read(
    statement: Statement<Seq<char>>,
    store: Store,
    started: int,
    before: Database,
    after: Database,
    outcome: Outcome,
)
    requires
        statement is ReadCommand,
        store.is_held_in(before),
        statement.may_end(started, before, after, outcome),
    ensures
        store.executed(statement, started).0.is_held_in(after),
        store.executed(statement, started).1 == statement.reply(outcome),
{
    let key = (statement->ReadCommand_caller_instance, statement->ReadCommand_idempotency_key);
    let binding = tables::bound(statement.values(), started);
    let rows = before.membership_commands;
    assert forall|i: int| 0 <= i < rows.len() implies binding.passes(
        tables::of_key(),
        #[trigger] rows[i],
    ) == (tables::key_of(rows[i]) == key) by {
        lemma_key_passes(binding, key, rows[i]);
    }
}

/// The rows of one Organization are those that a statement on it sees.
proof fn lemma_organization_passes(binding: Binding, id: Seq<char>, row: Row)
    requires
        binding.values.len() >= 1,
        binding.values[0] == Value::Text(id),
        row[Column::OrganizationId] is Text,
    ensures
        binding.passes(seq![tables::of_organization()], row) == (row[Column::OrganizationId]
            == Value::Text(id)),
{
    sql::lemma_passes_one(binding, tables::of_organization(), row);
}

proof fn lemma_organization_is_read(
    statement: Statement<Seq<char>>,
    store: Store,
    started: int,
    before: Database,
    after: Database,
    outcome: Outcome,
)
    requires
        statement is LockOrganization || statement is GetOrganization,
        store.is_held_in(before),
        statement.may_end(started, before, after, outcome),
    ensures
        store.executed(statement, started).0.is_held_in(after),
        store.executed(statement, started).1 == statement.reply(outcome),
{
    let id = match statement {
        Statement::LockOrganization { organization_id } => organization_id,
        Statement::GetOrganization { organization_id } => organization_id,
        _ => arbitrary(),
    };
    let binding = tables::bound(statement.values(), started);
    let rows = before.organizations;
    let active = seq![Condition::IsNull(Column::ArchivedAt)];
    assert forall|i: int| 0 <= i < rows.len() implies binding.passes(
        seq![tables::of_organization()],
        #[trigger] rows[i],
    ) == (rows[i][Column::OrganizationId] == Value::Text(id)) by {
        lemma_organization_passes(binding, id, rows[i]);
    }
    assert forall|row: Row| #[trigger] binding.conjunction(active, row) == Value::Flag(
        row[Column::ArchivedAt] is Null,
    ) by {
        sql::lemma_passes_one(binding, Condition::IsNull(Column::ArchivedAt), row);
        assert(active[0] == Condition::IsNull(Column::ArchivedAt));
    }
    if outcome->Returned_0 is Some {
        let items = statement.command()->items;
        let i = choose|i: int|
            0 <= i < rows.len() && binding.passes(
                seq![tables::of_organization()],
                #[trigger] rows[i],
            ) && outcome->Returned_0->0 == binding.returned(items, rows[i]);
        assert(tables::is_organization(rows[i], id, store.organizations[id]));
        assert(binding.conjunction(active, rows[i]) == Value::Flag(store.organizations[id].active));
        if statement is GetOrganization {
            assert(items[2] == Item::Test(active));
        } else {
            assert(items[0] == Item::Test(active));
        }
    } else {
        assert(statement.command()->Select_conditions == seq![tables::of_organization()]);
        assert(before.table(Table::Organizations) == rows);
        if store.organizations.contains_key(id) {
            let i = choose|i: int|
                0 <= i < rows.len() && (#[trigger] rows[i])[Column::OrganizationId] == Value::Text(
                    id,
                );
            assert(binding.passes(seq![tables::of_organization()], rows[i]));
            assert(!binding.passes(statement.command()->Select_conditions, rows[i]));
        }
    }
}

proof fn lemma_member_is_read(
    statement: Statement<Seq<char>>,
    store: Store,
    started: int,
    before: Database,
    after: Database,
    outcome: Outcome,
)
    requires
        statement is ReadMemberForAddition || statement is ReadMemberForRemoval,
        store.is_held_in(before),
        statement.may_end(started, before, after, outcome),
    ensures
        store.executed(statement, started).0.is_held_in(after),
        store.executed(statement, started).1 == statement.reply(outcome),
{
    let (organization_id, subject) = match statement {
        Statement::ReadMemberForAddition { organization_id, subject } => (organization_id, subject),
        Statement::ReadMemberForRemoval { organization_id, subject } => (organization_id, subject),
        _ => arbitrary(),
    };
    let binding = tables::bound(statement.values(), started);
    let rows = before.memberships;
    let of_subject = Condition::Equal(Column::Subject, Term::Placeholder(2));
    let alive = Condition::IsNull(Column::RemovedAt);
    let conditions = seq![tables::of_organization(), of_subject, alive];
    assert forall|i: int| 0 <= i < rows.len() implies binding.passes(
        conditions,
        #[trigger] rows[i],
    ) == store::is_member_at(store.memberships, i, organization_id, subject) by {
        sql::lemma_passes_three(binding, tables::of_organization(), of_subject, alive, rows[i]);
        assert(tables::is_membership(rows[i], store.memberships[i]));
    }
    assert forall|i: int| #[trigger]
        store::is_member_at(store.memberships, i, organization_id, subject) implies store.member(
        organization_id,
        subject,
    ) == Some(store.memberships[i]) by {
        let found = choose|j: int|
            store::is_member_at(store.memberships, j, organization_id, subject);
        assert(store.memberships[found] == store.memberships[i]);
    }
    if outcome->Returned_0 is Some {
        let i = choose|i: int|
            0 <= i < rows.len() && binding.passes(conditions, #[trigger] rows[i])
                && outcome->Returned_0->0 == binding.returned(statement.command()->items, rows[i]);
        assert(tables::is_membership(rows[i], store.memberships[i]));
    } else {
        assert forall|i: int| !store::is_member_at(
            store.memberships,
            i,
            organization_id,
            subject,
        ) by {
            if 0 <= i < rows.len() {
                assert(!binding.passes(conditions, rows[i]));
            }
        }
    }
}

/// A key in the receipts is a row that agrees on the key.
proof fn lemma_key_agrees(left: Row, right: Row)
    requires
        left[Column::CallerInstance] is Text,
        left[Column::IdempotencyKey] is Text,
        right[Column::CallerInstance] is Text,
        right[Column::IdempotencyKey] is Text,
    ensures
        sql::agree(left, right, seq![Column::CallerInstance, Column::IdempotencyKey]) == (
        tables::key_of(left) == tables::key_of(right)),
{
    let columns = seq![Column::CallerInstance, Column::IdempotencyKey];
    assert(columns[0] == Column::CallerInstance);
    assert(columns[1] == Column::IdempotencyKey);
}

#[verifier::rlimit(30)]
proof fn lemma_creation_is_reserved(
    statement: Statement<Seq<char>>,
    store: Store,
    started: int,
    before: Database,
    after: Database,
    outcome: Outcome,
)
    requires
        statement is ReserveCreation,
        store.is_held_in(before),
        statement.may_end(started, before, after, outcome),
    ensures
        store.executed(statement, started).0.is_held_in(after),
        store.executed(statement, started).1 == statement.reply(outcome),
{
    let schema = tables::plugin_schema();
    let binding = tables::bound(statement.values(), started);
    let columns = statement.command()->Insert_columns;
    let terms = statement.command()->Insert_terms;
    let rows = before.creation_requests;
    reveal_with_fuel(Binding::filled, 8);
    let row = binding.filled(
        binding.fresh(schema, Table::CreationRequests),
        columns,
        terms,
        columns.len() as int,
    );
    let (stored, _) = store.executed(statement, started);
    let key = tables::key_of(row);
    assert(tables::is_creation(row, key, stored.creations[key]) || store.creations.contains_key(
        key,
    ));
    assert forall|i: int| 0 <= i < rows.len() implies sql::agree(
        #[trigger] rows[i],
        row,
        seq![Column::CallerInstance, Column::IdempotencyKey],
    ) == (tables::key_of(rows[i]) == key) by {
        lemma_key_agrees(rows[i], row);
    }
    if !store.creations.contains_key(key) {
        let pushed = rows.push(row);
        assert(after.creation_requests == pushed);
        assert(tables::are_creations(pushed, stored.creations)) by {
            assert forall|other: ReceiptKey| #[trigger]
                stored.creations.contains_key(other) implies exists|i: int|
                0 <= i < pushed.len() && tables::key_of(#[trigger] pushed[i]) == other by {
                if other == key {
                    assert(tables::key_of(pushed[rows.len() as int]) == key);
                } else {
                    let i = choose|i: int|
                        0 <= i < rows.len() && tables::key_of(#[trigger] rows[i]) == other;
                    assert(tables::key_of(pushed[i]) == other);
                }
            }
        }
    }
}

#[verifier::rlimit(30)]
proof fn lemma_command_is_reserved(
    statement: Statement<Seq<char>>,
    store: Store,
    started: int,
    before: Database,
    after: Database,
    outcome: Outcome,
)
    requires
        statement is ReserveCommand,
        store.is_held_in(before),
        statement.may_end(started, before, after, outcome),
    ensures
        store.executed(statement, started).0.is_held_in(after),
        store.executed(statement, started).1 == statement.reply(outcome),
{
    let schema = tables::plugin_schema();
    let binding = tables::bound(statement.values(), started);
    let columns = statement.command()->Insert_columns;
    let terms = statement.command()->Insert_terms;
    let rows = before.membership_commands;
    reveal_with_fuel(Binding::filled, 6);
    let row = binding.filled(
        binding.fresh(schema, Table::MembershipCommands),
        columns,
        terms,
        columns.len() as int,
    );
    let (stored, _) = store.executed(statement, started);
    let key = tables::key_of(row);
    assert(tables::is_command(row, key, stored.commands[key]) || store.commands.contains_key(key));
    assert forall|i: int| 0 <= i < rows.len() implies sql::agree(
        #[trigger] rows[i],
        row,
        seq![Column::CallerInstance, Column::IdempotencyKey],
    ) == (tables::key_of(rows[i]) == key) by {
        lemma_key_agrees(rows[i], row);
    }
    if !store.commands.contains_key(key) {
        let pushed = rows.push(row);
        assert(after.membership_commands == pushed);
        assert(tables::are_commands(pushed, stored.commands)) by {
            assert forall|other: ReceiptKey| #[trigger]
                stored.commands.contains_key(other) implies exists|i: int|
                0 <= i < pushed.len() && tables::key_of(#[trigger] pushed[i]) == other by {
                if other == key {
                    assert(tables::key_of(pushed[rows.len() as int]) == key);
                } else {
                    let i = choose|i: int|
                        0 <= i < rows.len() && tables::key_of(#[trigger] rows[i]) == other;
                    assert(tables::key_of(pushed[i]) == other);
                }
            }
        }
    }
}

#[verifier::rlimit(30)]
proof fn lemma_organization_is_inserted(
    statement: Statement<Seq<char>>,
    store: Store,
    started: int,
    before: Database,
    after: Database,
    outcome: Outcome,
)
    requires
        statement is InsertOrganization,
        store.is_held_in(before),
        statement.may_end(started, before, after, outcome),
    ensures
        store.executed(statement, started).0.is_held_in(after),
        store.executed(statement, started).1 == statement.reply(outcome),
{
    let schema = tables::plugin_schema();
    let binding = tables::bound(statement.values(), started);
    let columns = statement.command()->Insert_columns;
    let terms = statement.command()->Insert_terms;
    let rows = before.organizations;
    reveal_with_fuel(Binding::filled, 4);
    reveal_with_fuel(sql::broken, 3);
    let row = binding.filled(
        binding.fresh(schema, Table::Organizations),
        columns,
        terms,
        columns.len() as int,
    );
    let id = statement->InsertOrganization_organization_id;
    let slug = statement->InsertOrganization_slug;
    let (stored, _) = store.executed(statement, started);
    let constraints = (schema.constraints)(Table::Organizations);
    assert forall|i: int| 0 <= i < rows.len() implies sql::agree(
        #[trigger] rows[i],
        row,
        seq![Column::OrganizationId],
    ) == (rows[i][Column::OrganizationId] == Value::Text(id)) && sql::agree(
        rows[i],
        row,
        seq![Column::Slug],
    ) == (rows[i][Column::Slug] == Value::Text(slug)) by {
        sql::lemma_agrees_on_one(rows[i], row, Column::OrganizationId);
        sql::lemma_agrees_on_one(rows[i], row, Column::Slug);
    }
    assert(sql::breaks(before, Table::Organizations, row, constraints[0])
        == store.organizations.contains_key(id)) by {
        if store.organizations.contains_key(id) {
            let i = choose|i: int|
                0 <= i < rows.len() && (#[trigger] rows[i])[Column::OrganizationId] == Value::Text(
                    id,
                );
            assert(before.table(Table::Organizations)[i] == rows[i]);
        }
    }
    assert(sql::breaks(before, Table::Organizations, row, constraints[1]) == store.slug_taken(
        slug,
    )) by {
        if store.slug_taken(slug) {
            let other = choose|other: Seq<char>| #[trigger]
                store.organizations.contains_key(other) && store.organizations[other].active
                    && store.organizations[other].slug == slug;
            let i = choose|i: int|
                0 <= i < rows.len() && (#[trigger] rows[i])[Column::OrganizationId] == Value::Text(
                    other,
                );
            assert(before.table(Table::Organizations)[i] == rows[i]);
        }
        if sql::breaks(before, Table::Organizations, row, constraints[1]) {
            let i = choose|i: int|
                0 <= i < rows.len() && sql::agree(
                    #[trigger] before.table(Table::Organizations)[i],
                    row,
                    seq![Column::Slug],
                ) && before.table(Table::Organizations)[i][Column::ArchivedAt] is Null;
            assert(rows[i][Column::Slug] == Value::Text(slug));
            assert(store.organizations.contains_key(rows[i][Column::OrganizationId]->Text_0));
        }
    }
    if !store.organizations.contains_key(id) && !store.slug_taken(slug) {
        let pushed = rows.push(row);
        assert(after.organizations == pushed);
        assert(tables::is_organization(row, id, stored.organizations[id]));
        assert(tables::are_organizations(pushed, stored.organizations)) by {
            assert forall|other: Seq<char>| #[trigger]
                stored.organizations.contains_key(other) implies exists|i: int|
                0 <= i < pushed.len() && (#[trigger] pushed[i])[Column::OrganizationId]
                    == Value::Text(other) by {
                if other == id {
                    assert(pushed[rows.len() as int][Column::OrganizationId] == Value::Text(id));
                } else {
                    assert(store.organizations.contains_key(other));
                    let i = choose|i: int|
                        0 <= i < rows.len() && (#[trigger] rows[i])[Column::OrganizationId]
                            == Value::Text(other);
                    assert(pushed[i][Column::OrganizationId] == Value::Text(other));
                }
            }
        }
    }
}

#[verifier::rlimit(40)]
proof fn lemma_membership_is_inserted(
    statement: Statement<Seq<char>>,
    store: Store,
    started: int,
    before: Database,
    after: Database,
    outcome: Outcome,
)
    requires
        statement is InsertOwner || statement is InsertMember,
        store.is_held_in(before),
        statement.may_end(started, before, after, outcome),
    ensures
        store.executed(statement, started).0.is_held_in(after),
        store.executed(statement, started).1 == statement.reply(outcome),
{
    let schema = tables::plugin_schema();
    let binding = tables::bound(statement.values(), started);
    let columns = statement.command()->Insert_columns;
    let terms = statement.command()->Insert_terms;
    let rows = before.memberships;
    reveal_with_fuel(Binding::filled, 6);
    reveal_with_fuel(sql::broken, 4);
    let row = binding.filled(
        binding.fresh(schema, Table::Memberships),
        columns,
        terms,
        columns.len() as int,
    );
    let (membership_id, organization_id, subject) = match statement {
        Statement::InsertOwner { membership_id, organization_id, subject } => (
            membership_id,
            organization_id,
            subject,
        ),
        Statement::InsertMember { membership_id, organization_id, subject } => (
            membership_id,
            organization_id,
            subject,
        ),
        _ => arbitrary(),
    };
    let record = MembershipRecord {
        membership_id,
        organization_id,
        subject,
        is_owner: statement is InsertOwner,
        active: true,
        revision: 1,
        created_at: started,
    };
    assert(tables::is_membership(row, record));
    assert(store.executed(statement, started) == store.inserted(record));
    let constraints = (schema.constraints)(Table::Memberships);
    assert forall|i: int| 0 <= i < rows.len() implies sql::agree(
        #[trigger] rows[i],
        row,
        seq![Column::MembershipId],
    ) == (store.memberships[i].membership_id == membership_id) && sql::agree(
        rows[i],
        row,
        seq![Column::OrganizationId, Column::Subject],
    ) == store.memberships[i].is_of(organization_id, subject) by {
        sql::lemma_agrees_on_one(rows[i], row, Column::MembershipId);
        sql::lemma_agrees_on_two(rows[i], row, Column::OrganizationId, Column::Subject);
    }
    assert(sql::breaks(before, Table::Memberships, row, constraints[0]) == store.has_membership(
        membership_id,
    )) by {
        if store.has_membership(membership_id) {
            let i = choose|i: int|
                0 <= i < store.memberships.len() && (
                #[trigger] store.memberships[i]).membership_id == membership_id;
            assert(before.table(Table::Memberships)[i] == rows[i]);
        }
    }
    assert(sql::breaks(before, Table::Memberships, row, constraints[1])
        != store.organizations.contains_key(organization_id)) by {
        if store.organizations.contains_key(organization_id) {
            let i = choose|i: int|
                0 <= i < before.organizations.len() && (
                #[trigger] before.organizations[i])[Column::OrganizationId] == Value::Text(
                    organization_id,
                );
            assert(before.table(Table::Organizations)[i] == before.organizations[i]);
        }
    }
    assert(sql::breaks(before, Table::Memberships, row, constraints[2]) == (store.member(
        organization_id,
        subject,
    ) is Some)) by {
        if store.member(organization_id, subject) is Some {
            let i = choose|i: int|
                store::is_member_at(store.memberships, i, organization_id, subject);
            assert(before.table(Table::Memberships)[i] == rows[i]);
        }
        if sql::breaks(before, Table::Memberships, row, constraints[2]) {
            let i = choose|i: int|
                0 <= i < rows.len() && sql::agree(
                    #[trigger] before.table(Table::Memberships)[i],
                    row,
                    seq![Column::OrganizationId, Column::Subject],
                ) && before.table(Table::Memberships)[i][Column::RemovedAt] is Null;
            assert(tables::is_membership(rows[i], store.memberships[i]));
            assert(store::is_member_at(store.memberships, i, organization_id, subject));
        }
    }
    if store.inserted(record).1 is RowsAffected {
        let pushed = rows.push(row);
        let records = store.memberships.push(record);
        assert(after.memberships == pushed);
        assert(tables::are_memberships(pushed, records)) by {
            assert forall|i: int, j: int|
                #![trigger records[i], records[j]]
                0 <= i < j < records.len() implies records[i].membership_id
                != records[j].membership_id && !(records[i].active && records[j].active
                && records[i].is_of(records[j].organization_id, records[j].subject)) by {
                assert(records[i] == store.memberships[i]);
                if j == store.memberships.len() {
                    assert(!store::is_member_at(
                        store.memberships,
                        i,
                        organization_id,
                        subject,
                    ));
                }
            }
        }
    }
}

/// Where at most one row passes, that many are touched.
proof fn lemma_one_row_passes(
    binding: Binding,
    conditions: Seq<Condition>,
    rows: Seq<Row>,
    found: Option<int>,
    k: int,
)
    requires
        0 <= k <= rows.len(),
        forall|i: int|
            0 <= i < rows.len() ==> binding.passes(conditions, #[trigger] rows[i]) == (found
                == Some(i)),
    ensures
        binding.passing(conditions, rows, k) == (if found is Some && 0 <= found->0 < k {
            1nat
        } else {
            0
        }),
    decreases k,
{
    if k > 0 {
        lemma_one_row_passes(binding, conditions, rows, found, k - 1);
        assert(binding.passes(conditions, rows[k - 1]) == (found == Some(k - 1)));
    }
}

#[verifier::rlimit(40)]
proof fn lemma_command_is_completed(
    statement: Statement<Seq<char>>,
    store: Store,
    started: int,
    before: Database,
    after: Database,
    outcome: Outcome,
)
    requires
        statement is CompleteCommand,
        store.is_held_in(before),
        statement.may_end(started, before, after, outcome),
    ensures
        store.executed(statement, started).0.is_held_in(after),
        store.executed(statement, started).1 == statement.reply(outcome),
{
    let key = (
        statement->CompleteCommand_caller_instance,
        statement->CompleteCommand_idempotency_key,
    );
    let binding = tables::bound(statement.values(), started);
    let conditions = statement.command()->Update_conditions;
    let columns = statement.command()->Update_columns;
    let terms = statement.command()->Update_terms;
    let rows = before.membership_commands;
    let open = Condition::IsNull(Column::CompletedAt);
    let (stored, _) = store.executed(statement, started);
    assert forall|i: int| 0 <= i < rows.len() implies binding.passes(
        conditions,
        #[trigger] rows[i],
    ) == (tables::key_of(rows[i]) == key && store.commands[key].changed is None) by {
        lemma_key_passes(binding, key, rows[i]);
        assert(tables::is_command(
            rows[i],
            tables::key_of(rows[i]),
            store.commands[tables::key_of(rows[i])],
        ));
        assert(conditions[2] == open);
        assert(conditions[0] == tables::of_key()[0]);
        assert(conditions[1] == tables::of_key()[1]);
        if binding.passes(tables::of_key(), rows[i]) {
            assert(binding.truth(tables::of_key()[0], rows[i]) == Some(true));
            assert(binding.truth(tables::of_key()[1], rows[i]) == Some(true));
        }
        if binding.passes(conditions, rows[i]) {
            assert(binding.truth(conditions[0], rows[i]) == Some(true));
            assert(binding.truth(conditions[1], rows[i]) == Some(true));
            assert(binding.truth(conditions[2], rows[i]) == Some(true));
            assert forall|k: int| 0 <= k < tables::of_key().len() implies binding.truth(
                #[trigger] tables::of_key()[k],
                rows[i],
            ) == Some(true) by {}
        }
    }
    let found = if store.commands.contains_key(key) && store.commands[key].changed is None {
        Some(
            choose|i: int| 0 <= i < rows.len() && tables::key_of(#[trigger] rows[i]) == key,
        )
    } else {
        None
    };
    lemma_one_row_passes(binding, conditions, rows, found, rows.len() as int);
    reveal_with_fuel(Binding::filled, 5);
    let updated = after.membership_commands;
    if found is Some {
        let at = found->0;
        let row = binding.filled(rows[at], columns, terms, columns.len() as int);
        assert(updated[at] == row);
        assert(tables::is_command(row, key, stored.commands[key]));
        assert forall|i: int| 0 <= i < rows.len() && i != at implies #[trigger] updated[i]
            == rows[i] by {}
        assert(tables::are_commands(updated, stored.commands)) by {
            assert forall|i: int| 0 <= i < updated.len() implies {
                let other = tables::key_of(#[trigger] updated[i]);
                stored.commands.contains_key(other) && tables::is_command(
                    updated[i],
                    other,
                    stored.commands[other],
                )
            } by {
                if i != at {
                    assert(tables::key_of(rows[i]) != key);
                }
            }
            assert forall|other: ReceiptKey| #[trigger]
                stored.commands.contains_key(other) implies exists|i: int|
                0 <= i < updated.len() && tables::key_of(#[trigger] updated[i]) == other by {
                let i = choose|i: int|
                    0 <= i < rows.len() && tables::key_of(#[trigger] rows[i]) == other;
                assert(tables::key_of(updated[i]) == other);
            }
            assert forall|i: int, j: int|
                #![trigger updated[i], updated[j]]
                0 <= i < j < updated.len() implies tables::key_of(updated[i]) != tables::key_of(
                updated[j],
            ) by {
                assert(tables::key_of(rows[i]) != tables::key_of(rows[j]));
            }
        }
    } else {
        assert(updated =~= rows);
    }
}

#[verifier::rlimit(40)]
proof fn lemma_member_is_removed(
    statement: Statement<Seq<char>>,
    store: Store,
    started: int,
    before: Database,
    after: Database,
    outcome: Outcome,
)
    requires
        statement is RemoveMember,
        store.is_held_in(before),
        statement.may_end(started, before, after, outcome),
    ensures
        store.executed(statement, started).0.is_held_in(after),
        store.executed(statement, started).1 == statement.reply(outcome),
{
    let organization_id = statement->RemoveMember_organization_id;
    let membership_id = statement->RemoveMember_membership_id;
    let revision = statement->RemoveMember_revision;
    let binding = tables::bound(statement.values(), started);
    let conditions = statement.command()->Update_conditions;
    let columns = statement.command()->Update_columns;
    let terms = statement.command()->Update_terms;
    let rows = before.memberships;
    let records = store.memberships;
    assert forall|i: int| 0 <= i < rows.len() implies binding.passes(
        conditions,
        #[trigger] rows[i],
    ) == (records[i].active && records[i].organization_id == organization_id
        && records[i].membership_id == membership_id) by {
        sql::lemma_passes_three(
            binding,
            tables::of_organization(),
            Condition::Equal(Column::MembershipId, Term::Placeholder(2)),
            Condition::IsNull(Column::RemovedAt),
            rows[i],
        );
        assert(tables::is_membership(rows[i], records[i]));
    }
    let found = if exists|i: int|
        0 <= i < records.len() && (#[trigger] records[i]).active && records[i].organization_id
            == organization_id && records[i].membership_id == membership_id {
        Some(
            choose|i: int|
                0 <= i < records.len() && (#[trigger] records[i]).active
                    && records[i].organization_id == organization_id && records[i].membership_id
                    == membership_id,
        )
    } else {
        None
    };
    lemma_one_row_passes(binding, conditions, rows, found, rows.len() as int);
    reveal_with_fuel(Binding::filled, 4);
    let updated = after.memberships;
    let tombstoned = store::tombstoned(records, organization_id, membership_id, revision);
    if found is Some {
        let at = found->0;
        assert(!tombstoned[at].active);
        assert(tombstoned != records);
    } else {
        assert(tombstoned =~= records);
    }
    assert forall|i: int| 0 <= i < updated.len() implies tables::is_membership(
        #[trigger] updated[i],
        tombstoned[i],
    ) by {
        assert(tables::is_membership(rows[i], records[i]));
        assert(binding.passes(conditions, rows[i]) == (records[i].active
            && records[i].organization_id == organization_id && records[i].membership_id
            == membership_id));
    }
    assert forall|i: int, j: int|
        #![trigger tombstoned[i], tombstoned[j]]
        0 <= i < j < tombstoned.len() implies tombstoned[i].membership_id
        != tombstoned[j].membership_id && !(tombstoned[i].active && tombstoned[j].active
        && tombstoned[i].is_of(tombstoned[j].organization_id, tombstoned[j].subject)) by {
        assert(records[i].membership_id != records[j].membership_id);
    }
}

/// What the probes of a membership check may report, in terms of the tables.
proof fn lemma_standing_probes(
    statement: Statement<Seq<char>>,
    store: Store,
    started: int,
    before: Database,
    value: Value,
)
    requires
        statement is CheckMembership,
        store.is_held_in(before),
    ensures
        ({
            let organization_id = statement->CheckMembership_organization_id;
            let subject = statement->CheckMembership_subject;
            let binding = tables::bound(statement.values(), started);
            let probes = statement.command()->probes;
            &&& binding.may_report(before, probes[0], value) == (value == Value::Flag(
                store.is_active(organization_id),
            ))
            &&& binding.may_report(before, probes[1], value) == if store.has_memberships_of(
                organization_id,
                subject,
            ) {
                exists|found: MembershipRecord| #[trigger]
                    store::is_newest(store.memberships, organization_id, subject, found) && value
                        == Value::Flag(found.active)
            } else {
                value == Value::Flag(false)
            }
            &&& binding.may_report(before, probes[2], value) == if store.has_memberships_of(
                organization_id,
                subject,
            ) {
                exists|found: MembershipRecord| #[trigger]
                    store::is_newest(store.memberships, organization_id, subject, found) && value
                        == Value::Flag(found.is_owner && found.active)
            } else {
                value == Value::Flag(false)
            }
        }),
{
    let organization_id = statement->CheckMembership_organization_id;
    let subject = statement->CheckMembership_subject;
    let binding = tables::bound(statement.values(), started);
    let probes = statement.command()->probes;
    let organizations = before.organizations;
    let alive = Condition::IsNull(Column::ArchivedAt);
    let active_organization = seq![tables::of_organization(), alive];
    assert(probes[0] == Probe::Exists {
        table: Table::Organizations,
        conditions: active_organization,
    });
    assert forall|i: int| 0 <= i < organizations.len() implies binding.passes(
        active_organization,
        #[trigger] organizations[i],
    ) == (organizations[i][Column::OrganizationId] == Value::Text(organization_id)
        && store.is_active(organization_id)) by {
        sql::lemma_passes_two(binding, tables::of_organization(), alive, organizations[i]);
    }
    if store.is_active(organization_id) {
        let i = choose|i: int|
            0 <= i < organizations.len() && (
            #[trigger] organizations[i])[Column::OrganizationId] == Value::Text(organization_id);
        assert(binding.passes(
            active_organization,
            before.table(Table::Organizations)[i],
        ));
    }
    let rows = before.memberships;
    let records = store.memberships;
    let of_subject = Condition::Equal(Column::Subject, Term::Placeholder(2));
    let conditions = seq![tables::of_organization(), of_subject];
    let order = Column::CreatedAt;
    let present = Condition::IsNull(Column::RemovedAt);
    let owns = Condition::Holds(Column::IsOwner);
    let active_test = seq![present];
    let owner_test = seq![owns, present];
    assert(probes[1] == Probe::Newest {
        test: active_test,
        table: Table::Memberships,
        conditions,
        order,
    });
    assert(probes[2] == Probe::Newest {
        test: owner_test,
        table: Table::Memberships,
        conditions,
        order,
    });
    assert forall|i: int| 0 <= i < rows.len() implies binding.passes(
        conditions,
        #[trigger] rows[i],
    ) == records[i].is_of(organization_id, subject) by {
        sql::lemma_passes_two(binding, tables::of_organization(), of_subject, rows[i]);
        assert(tables::is_membership(rows[i], records[i]));
    }
    assert forall|i: int| 0 <= i < rows.len() implies binding.conjunction(
        active_test,
        #[trigger] rows[i],
    ) == Value::Flag(records[i].active) && binding.conjunction(owner_test, rows[i]) == Value::Flag(
        records[i].is_owner && records[i].active,
    ) by {
        assert(tables::is_membership(rows[i], records[i]));
        sql::lemma_passes_one(binding, present, rows[i]);
        sql::lemma_passes_two(binding, owns, present, rows[i]);
        assert(active_test[0] == present);
        assert(owner_test[0] == owns);
        assert(owner_test[1] == present);
        if !records[i].is_owner {
            assert(binding.truth(owner_test[0], rows[i]) == Some(false));
        }
        if !records[i].active {
            assert(binding.truth(owner_test[1], rows[i]) == Some(false));
            assert(binding.truth(active_test[0], rows[i]) == Some(false));
        }
    }
    assert forall|i: int| 0 <= i < rows.len() implies #[trigger] binding.is_newest_at(
        conditions,
        order,
        rows,
        i,
    ) == store::is_newest(records, organization_id, subject, records[i]) by {
        assert(binding.passes(conditions, rows[i]) == records[i].is_of(organization_id, subject));
        assert(records.contains(records[i]));
        if binding.is_newest_at(conditions, order, rows, i) {
            assert forall|j: int|
                0 <= j < records.len() && (#[trigger] records[j]).is_of(
                    organization_id,
                    subject,
                ) implies records[j].created_at <= records[i].created_at by {
                assert(binding.passes(conditions, rows[j]));
                assert(tables::is_membership(rows[j], records[j]));
                assert(tables::is_membership(rows[i], records[i]));
            }
        }
        if store::is_newest(records, organization_id, subject, records[i]) {
            assert forall|j: int|
                0 <= j < rows.len() && binding.passes(conditions, #[trigger] rows[j]) implies
                rows[j][order]->Time_0 <= rows[i][order]->Time_0 by {
                assert(records[j].is_of(organization_id, subject));
                assert(tables::is_membership(rows[j], records[j]));
                assert(tables::is_membership(rows[i], records[i]));
            }
        }
    }
    if store.has_memberships_of(organization_id, subject) {
        let i = choose|i: int|
            0 <= i < records.len() && (#[trigger] records[i]).is_of(organization_id, subject);
        assert(binding.passes(conditions, before.table(Table::Memberships)[i]));
        assert forall|found: MembershipRecord| #[trigger]
            store::is_newest(records, organization_id, subject, found) implies exists|k: int|
            0 <= k < rows.len() && records[k] == found && #[trigger] binding.is_newest_at(
                conditions,
                order,
                rows,
                k,
            ) by {
            let k = choose|k: int| 0 <= k < records.len() && records[k] == found;
            assert(binding.is_newest_at(conditions, order, rows, k));
        }
    }
}

proof fn lemma_standing_is_checked(
    statement: Statement<Seq<char>>,
    store: Store,
    started: int,
    before: Database,
    after: Database,
    outcome: Outcome,
)
    requires
        statement is CheckMembership,
        store.is_held_in(before),
        statement.may_end(started, before, after, outcome),
    ensures
        after == before,
        statement.reply(outcome) is Standing,
        store.may_find(
            statement->CheckMembership_organization_id,
            statement->CheckMembership_subject,
            statement.reply(outcome)->Standing_0,
        ),
{
    let values = outcome->Reported_0;
    let probes = statement.command()->probes;
    let labels = statement.command()->labels;
    let binding = tables::bound(statement.values(), started);
    assert(binding.may_report(before, probes[0], values[labels[0]]));
    assert(binding.may_report(before, probes[1], values[labels[1]]));
    assert(binding.may_report(before, probes[2], values[labels[2]]));
    lemma_standing_probes(statement, store, started, before, values[Label::OrganizationExists]);
    lemma_standing_probes(statement, store, started, before, values[Label::Active]);
    lemma_standing_probes(statement, store, started, before, values[Label::Owner]);
}

/// A database without a row holds the tables without a row.
pub proof fn law_empty_tables_are_held(database: Database)
    requires
        forall|table: Table| #[trigger] database.table(table) == Seq::<Row>::empty(),
    ensures
        Store::empty().is_held_in(database),
{
    assert(database.table(Table::Organizations) == Seq::<Row>::empty());
    assert(database.table(Table::Roles) == Seq::<Row>::empty());
    assert(database.table(Table::Memberships) == Seq::<Row>::empty());
    assert(database.table(Table::CreationRequests) == Seq::<Row>::empty());
    assert(database.table(Table::MembershipCommands) == Seq::<Row>::empty());
}

/// Every statement ends, whatever the tables hold.
pub proof fn law_statement_ends(statement: Statement<Seq<char>>, started: int, before: Database)
    ensures
        exists|after: Database, outcome: Outcome| #[trigger]
            statement.may_end(started, before, after, outcome),
{
    let schema = tables::plugin_schema();
    let binding = tables::bound(statement.values(), started);
    sql::law_command_ends(statement.command(), schema, binding, before);
    let (after, outcome) = choose|after: Database, outcome: Outcome| #[trigger]
        statement.command().may_end(schema, binding, before, after, outcome);
    assert(statement.may_end(started, before, after, outcome));
}

/// What a statement's text says, run on its bound values against a database
/// that holds the tables, is what the tables are taken to do: the database then
/// holds the tables after the statement, and hands back the same reply. For a
/// membership check it hands back a row that the check may find.
pub proof fn law_statement_does_what_its_text_says(
    statement: Statement<Seq<char>>,
    store: Store,
    started: int,
    before: Database,
    after: Database,
    outcome: Outcome,
)
    requires
        store.is_held_in(before),
        statement.may_end(started, before, after, outcome),
    ensures
        sql::reads_as(statement.text(), statement.command()),
        store.executed(statement, started).0.is_held_in(after),
        match statement {
            Statement::CheckMembership { organization_id, subject } => {
                &&& statement.reply(outcome) is Standing
                &&& store.may_find(organization_id, subject, statement.reply(outcome)->Standing_0)
            },
            _ => store.executed(statement, started).1 == statement.reply(outcome),
        },
{
    reading::lemma_statement_reads(statement);
    match statement {
        Statement::ReserveCreation { .. } => {
            lemma_creation_is_reserved(statement, store, started, before, after, outcome);
        },
        Statement::ReadCreation { .. } => {
            lemma_creation_is_read(statement, store, started, before, after, outcome);
        },
        Statement::InsertOrganization { .. } => {
            lemma_organization_is_inserted(statement, store, started, before, after, outcome);
        },
        Statement::InsertOwner { .. } | Statement::InsertMember { .. } => {
            lemma_membership_is_inserted(statement, store, started, before, after, outcome);
        },
        Statement::ReserveCommand { .. } => {
            lemma_command_is_reserved(statement, store, started, before, after, outcome);
        },
        Statement::ReadCommand { .. } => {
            lemma_command_is_read(statement, store, started, before, after, outcome);
        },
        Statement::CompleteCommand { .. } => {
            lemma_command_is_completed(statement, store, started, before, after, outcome);
        },
        Statement::LockOrganization { .. } | Statement::GetOrganization { .. } => {
            lemma_organization_is_read(statement, store, started, before, after, outcome);
        },
        Statement::ReadMemberForAddition { .. } | Statement::ReadMemberForRemoval { .. } => {
            lemma_member_is_read(statement, store, started, before, after, outcome);
        },
        Statement::RemoveMember { .. } => {
            lemma_member_is_removed(statement, store, started, before, after, outcome);
        },
        Statement::CheckMembership { .. } => {
            lemma_standing_is_checked(statement, store, started, before, after, outcome);
        },
    }
}

/// Every row that a membership check may find is one that its text may report.
pub proof fn law_membership_check_may_report_what_it_may_find(
    organization_id: Seq<char>,
    subject: Seq<char>,
    store: Store,
    started: int,
    database: Database,
    row: StandingRow,
)
    requires
        store.is_held_in(database),
        store.may_find(organization_id, subject, row),
    ensures
        ({
            let statement = Statement::CheckMembership { organization_id, subject };
            exists|outcome: Outcome|
                #![trigger statement.may_end(started, database, database, outcome)]
                statement.may_end(started, database, database, outcome) && statement.reply(outcome)
                    == Reply::<Seq<char>>::Standing(row)
        }),
{
    let statement = Statement::CheckMembership { organization_id, subject };
    let exists = Value::Flag(row.organization_exists->0);
    let active = Value::Flag(row.active->0);
    let owner = Value::Flag(row.owner->0);
    let values = map![
        Label::OrganizationExists => exists,
        Label::Active => active,
        Label::Owner => owner,
    ];
    lemma_standing_probes(statement, store, started, database, exists);
    lemma_standing_probes(statement, store, started, database, active);
    lemma_standing_probes(statement, store, started, database, owner);
    let labels = statement.command()->labels;
    assert(labels[0] == Label::OrganizationExists);
    assert(labels[1] == Label::Active);
    assert(labels[2] == Label::Owner);
    assert(statement.may_end(started, database, database, Outcome::Reported(values)));
}

} // verus!
