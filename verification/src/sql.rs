//! The part of SQL that the statements are written in: how it is spelled, and
//! what it does to tables.
//!
//! Nothing here knows the statements. A text is read as a [`Command`], and a
//! command has its meaning over tables of named columns, with `NULL` and with
//! the constraints of the schema.

use vstd::prelude::*;

use crate::notation;
use crate::spelling;
use crate::spelling::Words;

verus! {

/// What a column of a row holds.
pub enum Value {
    Null,
    Text(Seq<char>),
    Integer(int),
    Flag(bool),
    Time(int),
    Texts(Seq<Seq<char>>),
}

/// The columns of the schema.
pub enum Column {
    ArchivedAt,
    CallerInstance,
    Changed,
    CompletedAt,
    CreatedAt,
    IdempotencyKey,
    IsOwner,
    MembershipId,
    Name,
    Operation,
    OrganizationId,
    OwnerMembershipId,
    OwnerSubject,
    Permissions,
    RemovedAt,
    ResultRevision,
    Revision,
    RoleId,
    Slug,
    Subject,
    SystemKey,
    UpdatedAt,
}

/// The tables of the schema.
pub enum Table {
    Organizations,
    Roles,
    Memberships,
    CreationRequests,
    MembershipCommands,
}

/// The names that a report gives to its columns.
pub enum Label {
    OrganizationExists,
    Active,
    Owner,
    Allowed,
}

/// Something that has a value where a row is written or compared.
pub enum Term {
    Placeholder(int),
    True,
    False,
    One,
    Now,
    Quoted(Seq<char>),
}

/// Something that is true, false or unknown of a row.
pub enum Condition {
    Equal(Column, Term),
    IsNull(Column),
    Holds(Column),
}

/// What a query returns of a row.
pub enum Item {
    Column(Column),
    Test(Seq<Condition>),
}

/// One column of a report.
pub enum Probe {
    /// Whether a row passes.
    Exists { table: Table, conditions: Seq<Condition> },
    /// What is so of the row that passes with the greatest value in a column.
    Newest { test: Seq<Condition>, table: Table, conditions: Seq<Condition>, order: Column },
    /// Whether two rows with equal columns pass, one of which lists a value.
    Joined {
        left: Table,
        right: Table,
        on: Seq<Column>,
        conditions: Seq<Condition>,
        listed: Term,
        list: Column,
    },
}

/// A statement.
pub enum Command {
    Insert { table: Table, columns: Seq<Column>, terms: Seq<Term>, unless: Seq<Column> },
    Select { items: Seq<Item>, table: Table, conditions: Seq<Condition>, locks: bool },
    Update { table: Table, columns: Seq<Column>, terms: Seq<Term>, conditions: Seq<Condition> },
    Report { probes: Seq<Probe>, labels: Seq<Label> },
}

impl Column {
    /// How the column is written.
    pub open spec fn name(self) -> Seq<char> {
        match self {
            Column::ArchivedAt => "archived_at"@,
            Column::CallerInstance => "caller_instance"@,
            Column::Changed => "changed"@,
            Column::CompletedAt => "completed_at"@,
            Column::CreatedAt => "created_at"@,
            Column::IdempotencyKey => "idempotency_key"@,
            Column::IsOwner => "is_owner"@,
            Column::MembershipId => "membership_id"@,
            Column::Name => "name"@,
            Column::Operation => "operation"@,
            Column::OrganizationId => "organization_id"@,
            Column::OwnerMembershipId => "owner_membership_id"@,
            Column::OwnerSubject => "owner_subject"@,
            Column::Permissions => "permissions"@,
            Column::RemovedAt => "removed_at"@,
            Column::ResultRevision => "result_revision"@,
            Column::Revision => "revision"@,
            Column::RoleId => "role_id"@,
            Column::Slug => "slug"@,
            Column::Subject => "subject"@,
            Column::SystemKey => "system_key"@,
            Column::UpdatedAt => "updated_at"@,
        }
    }
}

impl Table {
    /// How the table is written.
    pub open spec fn name(self) -> Seq<char> {
        match self {
            Table::Organizations => "organizations"@,
            Table::Roles => "organization_roles"@,
            Table::Memberships => "organization_memberships"@,
            Table::CreationRequests => "organization_creation_requests"@,
            Table::MembershipCommands => "organization_membership_commands"@,
        }
    }
}

impl Label {
    /// How the label is written.
    pub open spec fn name(self) -> Seq<char> {
        match self {
            Label::OrganizationExists => "organization_exists"@,
            Label::Active => "active"@,
            Label::Owner => "owner"@,
            Label::Allowed => "allowed"@,
        }
    }
}

/// The columns from the `k`th on, separated by commas.
pub open spec fn column_words(columns: Seq<Column>, k: int, rest: Words) -> Words
    decreases columns.len() - k,
{
    if k >= columns.len() {
        rest
    } else {
        let own = spelling::word(columns[k].name(), column_words(columns, k + 1, rest));
        if k == 0 {
            own
        } else {
            spelling::word(","@, own)
        }
    }
}

impl Term {
    /// How the term is written.
    pub open spec fn words(self, rest: Words) -> Words {
        match self {
            Term::Placeholder(n) => spelling::word("$"@, spelling::word(seq![notation::digit(n)], rest)),
            Term::True => spelling::word("true"@, rest),
            Term::False => spelling::word("false"@, rest),
            Term::One => spelling::word("1"@, rest),
            Term::Now => spelling::word("transaction_timestamp()"@, rest),
            Term::Quoted(quoted) => spelling::word("'"@, spelling::word(quoted, spelling::word("'"@, rest))),
        }
    }
}

/// The terms from the `k`th on, separated by commas.
pub open spec fn term_words(terms: Seq<Term>, k: int, rest: Words) -> Words
    decreases terms.len() - k,
{
    if k >= terms.len() {
        rest
    } else {
        let own = terms[k].words(term_words(terms, k + 1, rest));
        if k == 0 {
            own
        } else {
            spelling::word(","@, own)
        }
    }
}

impl Condition {
    /// How the condition is written.
    pub open spec fn words(self, rest: Words) -> Words {
        match self {
            Condition::Equal(column, term) => spelling::word(column.name(), spelling::word("="@, term.words(rest))),
            Condition::IsNull(column) => spelling::word(column.name(), spelling::word(" IS NULL"@, rest)),
            Condition::Holds(column) => spelling::word(column.name(), rest),
        }
    }
}

/// The conditions from the `k`th on, all of which must hold. `owner` stands
/// before each of them.
pub open spec fn condition_words(
    owner: Seq<char>,
    conditions: Seq<Condition>,
    k: int,
    rest: Words,
) -> Words
    decreases conditions.len() - k,
{
    if k >= conditions.len() {
        rest
    } else {
        let own = spelling::word(
            owner,
            conditions[k].words(condition_words(owner, conditions, k + 1, rest)),
        );
        if k == 0 {
            own
        } else {
            spelling::word(" AND "@, own)
        }
    }
}

/// What a query returns, from the `k`th on.
pub open spec fn item_words(items: Seq<Item>, k: int, rest: Words) -> Words
    decreases items.len() - k,
{
    if k >= items.len() {
        rest
    } else {
        let others = item_words(items, k + 1, rest);
        let own = match items[k] {
            Item::Column(column) => spelling::word(column.name(), others),
            Item::Test(test) => condition_words(""@, test, 0, others),
        };
        if k == 0 {
            own
        } else {
            spelling::word(","@, own)
        }
    }
}

/// The assignments from the `k`th on.
pub open spec fn assignment_words(
    columns: Seq<Column>,
    terms: Seq<Term>,
    k: int,
    rest: Words,
) -> Words
    decreases columns.len() - k,
{
    if k >= columns.len() {
        rest
    } else {
        let others = assignment_words(columns, terms, k + 1, rest);
        let own = spelling::word(columns[k].name(), spelling::word("="@, terms[k].words(others)));
        if k == 0 {
            own
        } else {
            spelling::word(","@, own)
        }
    }
}

/// The columns that two rows share, from the `k`th on.
pub open spec fn join_words(columns: Seq<Column>, k: int, rest: Words) -> Words
    decreases columns.len() - k,
{
    if k >= columns.len() {
        rest
    } else {
        let name = columns[k].name();
        let others = join_words(columns, k + 1, rest);
        let own = spelling::word("r."@, spelling::word(name, spelling::word("=m."@, spelling::word(name, others))));
        if k == 0 {
            own
        } else {
            spelling::word(" AND "@, own)
        }
    }
}

impl Probe {
    /// How the column of a report is written.
    pub open spec fn words(self, rest: Words) -> Words {
        match self {
            Probe::Exists { table, conditions } => {
                let tested = condition_words(""@, conditions, 0, spelling::word(")"@, rest));
                spelling::word("EXISTS(SELECT 1 FROM "@, spelling::word(table.name(), spelling::word(" WHERE "@, tested)))
            },
            Probe::Newest { test, table, conditions, order } => {
                let ordered = spelling::word(
                    " ORDER BY "@,
                    spelling::word(order.name(), spelling::word(" DESC LIMIT 1),false)"@, rest)),
                );
                let tested = condition_words(""@, conditions, 0, ordered);
                let from = spelling::word(" FROM "@, spelling::word(table.name(), spelling::word(" WHERE "@, tested)));
                spelling::word("COALESCE((SELECT "@, condition_words(""@, test, 0, from))
            },
            Probe::Joined { left, right, on, conditions, listed, list } => {
                let any = listed.words(spelling::word("=ANY(r."@, spelling::word(list.name(), spelling::word("))"@, rest))));
                let tested = condition_words("m."@, conditions, 0, spelling::word(" AND "@, any));
                let joined = join_words(on, 0, spelling::word(" WHERE "@, tested));
                let with = spelling::word(" m JOIN "@, spelling::word(right.name(), spelling::word(" r ON "@, joined)));
                spelling::word("EXISTS(SELECT 1 FROM "@, spelling::word(left.name(), with))
            },
        }
    }
}

/// The columns of a report, from the `k`th on.
pub open spec fn probe_words(probes: Seq<Probe>, labels: Seq<Label>, k: int, rest: Words) -> Words
    decreases probes.len() - k,
{
    if k >= probes.len() {
        rest
    } else {
        let others = probe_words(probes, labels, k + 1, rest);
        let own = probes[k].words(spelling::word(" AS "@, spelling::word(labels[k].name(), others)));
        if k == 0 {
            own
        } else {
            spelling::word(", "@, own)
        }
    }
}

impl Command {
    /// How the command is written.
    pub open spec fn words(self) -> Words {
        match self {
            Command::Insert { table, columns, terms, unless } => {
                let conflict = if unless.len() == 0 {
                    Words::End
                } else {
                    spelling::word(
                        " ON CONFLICT ("@,
                        column_words(unless, 0, spelling::word(") DO NOTHING"@, Words::End)),
                    )
                };
                let valued = spelling::word(") VALUES ("@, term_words(terms, 0, spelling::word(")"@, conflict)));
                let named = spelling::word(" ("@, column_words(columns, 0, valued));
                spelling::word("INSERT INTO "@, spelling::word(table.name(), named))
            },
            Command::Select { items, table, conditions, locks } => {
                let end = if locks {
                    spelling::word(" FOR UPDATE"@, Words::End)
                } else {
                    Words::End
                };
                let tested = spelling::word(" WHERE "@, condition_words(""@, conditions, 0, end));
                let from = spelling::word(" FROM "@, spelling::word(table.name(), tested));
                spelling::word("SELECT "@, item_words(items, 0, from))
            },
            Command::Update { table, columns, terms, conditions } => {
                let tested = spelling::word(" WHERE "@, condition_words(""@, conditions, 0, Words::End));
                let set = spelling::word(" SET "@, assignment_words(columns, terms, 0, tested));
                spelling::word("UPDATE "@, spelling::word(table.name(), set))
            },
            Command::Report { probes, labels } => spelling::word(
                "SELECT "@,
                probe_words(probes, labels, 0, Words::End),
            ),
        }
    }
}

/// Whether the text is the command, from its beginning to its end.
pub open spec fn reads_as(text: Seq<char>, command: Command) -> bool {
    spelling::spells(text, 0, command.words())
}

/// What a row holds in each column. A column that the table does not have is
/// of no account.
pub type Row = Map<Column, Value>;

/// The rows of every table, in no order that a statement could rely on.
#[verifier::ext_equal]
pub struct Database {
    pub organizations: Seq<Row>,
    pub roles: Seq<Row>,
    pub memberships: Seq<Row>,
    pub creation_requests: Seq<Row>,
    pub membership_commands: Seq<Row>,
}

impl Database {
    /// The rows of a table.
    pub open spec fn table(self, table: Table) -> Seq<Row> {
        match table {
            Table::Organizations => self.organizations,
            Table::Roles => self.roles,
            Table::Memberships => self.memberships,
            Table::CreationRequests => self.creation_requests,
            Table::MembershipCommands => self.membership_commands,
        }
    }

    /// The tables with other rows in one of them.
    pub open spec fn with(self, table: Table, rows: Seq<Row>) -> Database {
        match table {
            Table::Organizations => Database { organizations: rows, ..self },
            Table::Roles => Database { roles: rows, ..self },
            Table::Memberships => Database { memberships: rows, ..self },
            Table::CreationRequests => Database { creation_requests: rows, ..self },
            Table::MembershipCommands => Database { membership_commands: rows, ..self },
        }
    }
}

/// What a table demands of a row that is inserted.
pub enum Constraint {
    /// No other row has the same values in the columns. With `alive` only rows
    /// count that hold `NULL` in that column.
    Unique { name: Seq<char>, columns: Seq<Column>, alive: Option<Column> },
    /// A row of the table has the value in the column of the same name.
    References { name: Seq<char>, column: Column, table: Table },
}

/// What the tables demand, and what their columns hold if nothing is said.
pub struct Schema {
    pub constraints: spec_fn(Table) -> Seq<Constraint>,
    pub defaults: spec_fn(Table, Column) -> Option<Term>,
}

/// What a statement is run on: the values bound to `$1`, `$2` and so on, and
/// when the transaction started.
pub struct Binding {
    pub values: Seq<Value>,
    pub now: int,
}

/// How a statement ends.
pub enum Outcome {
    /// It touched this many rows.
    Affected(nat),
    /// It broke the constraint.
    Broken(Seq<char>),
    /// The first row that it returned, if it returned any.
    Returned(Option<Seq<Value>>),
    /// The one row of a report.
    Reported(Map<Label, Value>),
}

impl Binding {
    /// What a term stands for.
    pub open spec fn value(self, term: Term) -> Value {
        match term {
            Term::Placeholder(n) => self.values[n - 1],
            Term::True => Value::Flag(true),
            Term::False => Value::Flag(false),
            Term::One => Value::Integer(1),
            Term::Now => Value::Time(self.now),
            Term::Quoted(text) => Value::Text(text),
        }
    }

    /// Whether a condition is true of a row. Nothing is known of what is
    /// compared with `NULL`.
    pub open spec fn truth(self, condition: Condition, row: Row) -> Option<bool> {
        match condition {
            Condition::Equal(column, term) => if row[column] is Null || self.value(term) is Null {
                None
            } else {
                Some(row[column] == self.value(term))
            },
            Condition::IsNull(column) => Some(row[column] is Null),
            Condition::Holds(column) => match row[column] {
                Value::Flag(flag) => Some(flag),
                _ => None,
            },
        }
    }

    /// Whether a row passes conditions: each of them is known to be true.
    pub open spec fn passes(self, conditions: Seq<Condition>, row: Row) -> bool {
        forall|k: int|
            0 <= k < conditions.len() ==> self.truth(#[trigger] conditions[k], row) == Some(true)
    }

    /// The value of conditions that are joined by `AND`.
    pub open spec fn conjunction(self, conditions: Seq<Condition>, row: Row) -> Value {
        if exists|k: int|
            0 <= k < conditions.len() && self.truth(#[trigger] conditions[k], row) == Some(false) {
            Value::Flag(false)
        } else if self.passes(conditions, row) {
            Value::Flag(true)
        } else {
            Value::Null
        }
    }

    /// What a query returns of a row.
    pub open spec fn returned(self, items: Seq<Item>, row: Row) -> Seq<Value> {
        Seq::new(
            items.len(),
            |k: int|
                match items[k] {
                    Item::Column(column) => row[column],
                    Item::Test(test) => self.conjunction(test, row),
                },
        )
    }

    /// The row after the first `k` columns were set.
    pub open spec fn filled(self, row: Row, columns: Seq<Column>, terms: Seq<Term>, k: int) -> Row
        decreases k,
    {
        if k <= 0 {
            row
        } else {
            self.filled(row, columns, terms, k - 1).insert(columns[k - 1], self.value(terms[k - 1]))
        }
    }

    /// A row of which nothing was said.
    pub open spec fn fresh(self, schema: Schema, table: Table) -> Row {
        Map::new(
            |column: Column| true,
            |column: Column|
                match (schema.defaults)(table, column) {
                    Some(term) => self.value(term),
                    None => Value::Null,
                },
        )
    }

    /// How many of the first `k` rows pass.
    pub open spec fn passing(self, conditions: Seq<Condition>, rows: Seq<Row>, k: int) -> nat
        decreases k,
    {
        if k <= 0 {
            0
        } else {
            self.passing(conditions, rows, k - 1) + if self.passes(conditions, rows[k - 1]) {
                1nat
            } else {
                0
            }
        }
    }

    /// Whether the row at `i` passes, and no row that passes holds a greater
    /// time in the column.
    pub open spec fn is_newest_at(
        self,
        conditions: Seq<Condition>,
        order: Column,
        rows: Seq<Row>,
        i: int,
    ) -> bool {
        &&& 0 <= i < rows.len()
        &&& self.passes(conditions, rows[i])
        &&& forall|j: int|
            0 <= j < rows.len() && self.passes(conditions, #[trigger] rows[j])
                ==> rows[j][order]->Time_0 <= rows[i][order]->Time_0
    }

    /// Whether a column of a report may hold the value. Where rows are equally
    /// new it is open which one counts.
    pub open spec fn may_report(self, database: Database, probe: Probe, value: Value) -> bool {
        match probe {
            Probe::Exists { table, conditions } => value == Value::Flag(
                exists|i: int|
                    0 <= i < database.table(table).len() && self.passes(
                        conditions,
                        #[trigger] database.table(table)[i],
                    ),
            ),
            Probe::Newest { test, table, conditions, order } => if exists|i: int|
                0 <= i < database.table(table).len() && self.passes(
                    conditions,
                    #[trigger] database.table(table)[i],
                ) {
                exists|i: int| #[trigger]
                    self.is_newest_at(conditions, order, database.table(table), i) && value == (
                    if self.conjunction(test, database.table(table)[i]) is Null {
                        Value::Flag(false)
                    } else {
                        self.conjunction(test, database.table(table)[i])
                    })
            } else {
                value == Value::Flag(false)
            },
            Probe::Joined { left, right, on, conditions, listed, list } => value == Value::Flag(
                self.is_joined(
                    database.table(left),
                    database.table(right),
                    on,
                    conditions,
                    listed,
                    list,
                ),
            ),
        }
    }

    /// Whether two rows are joined and pass.
    pub open spec fn is_joined(
        self,
        left: Seq<Row>,
        right: Seq<Row>,
        on: Seq<Column>,
        conditions: Seq<Condition>,
        listed: Term,
        list: Column,
    ) -> bool {
        exists|i: int, j: int| self.is_joined_at(left, i, right, j, on, conditions, listed, list)
    }

    /// Whether these two rows are joined and pass.
    pub open spec fn is_joined_at(
        self,
        left: Seq<Row>,
        i: int,
        right: Seq<Row>,
        j: int,
        on: Seq<Column>,
        conditions: Seq<Condition>,
        listed: Term,
        list: Column,
    ) -> bool {
        &&& 0 <= i < left.len()
        &&& 0 <= j < right.len()
        &&& forall|k: int|
            0 <= k < on.len() ==> right[j][#[trigger] on[k]] == left[i][on[k]]
                && !(left[i][on[k]] is Null)
        &&& self.passes(conditions, left[i])
        &&& self.value(listed) is Text
        &&& right[j][list] is Texts
        &&& right[j][list]->Texts_0.contains(self.value(listed)->Text_0)
    }
}

/// Whether two rows hold the same in the columns, and no `NULL`.
pub open spec fn agree(left: Row, right: Row, columns: Seq<Column>) -> bool {
    forall|k: int|
        0 <= k < columns.len() ==> left[#[trigger] columns[k]] == right[columns[k]]
            && !(left[columns[k]] is Null)
}

/// Whether a row that is inserted into a table breaks a constraint.
pub open spec fn breaks(database: Database, table: Table, row: Row, constraint: Constraint) -> bool {
    match constraint {
        Constraint::Unique { columns, alive, .. } => (alive is None || row[alive->0] is Null)
            && exists|i: int|
            0 <= i < database.table(table).len() && agree(
                #[trigger] database.table(table)[i],
                row,
                columns,
            ) && (alive is None || database.table(table)[i][alive->0] is Null),
        Constraint::References { column, table: target, .. } => !(row[column] is Null)
            && forall|i: int|
            0 <= i < database.table(target).len() ==> (
            #[trigger] database.table(target)[i])[column] != row[column],
    }
}

/// The first constraint that a row breaks, from the `k`th on.
pub open spec fn broken(
    database: Database,
    table: Table,
    row: Row,
    constraints: Seq<Constraint>,
    k: int,
) -> Option<Seq<char>>
    decreases constraints.len() - k,
{
    if k >= constraints.len() {
        None
    } else if breaks(database, table, row, constraints[k]) {
        match constraints[k] {
            Constraint::Unique { name, .. } => Some(name),
            Constraint::References { name, .. } => Some(name),
        }
    } else {
        broken(database, table, row, constraints, k + 1)
    }
}

impl Command {
    /// Whether the command, run on `before`, may leave `after` and end so. An
    /// update is taken to break no constraint.
    pub open spec fn may_end(
        self,
        schema: Schema,
        binding: Binding,
        before: Database,
        after: Database,
        outcome: Outcome,
    ) -> bool {
        match self {
            Command::Insert { table, columns, terms, unless } => {
                let rows = before.table(table);
                let row = binding.filled(
                    binding.fresh(schema, table),
                    columns,
                    terms,
                    columns.len() as int,
                );
                if unless.len() > 0 && exists|i: int|
                    0 <= i < rows.len() && agree(#[trigger] rows[i], row, unless) {
                    after == before && outcome == Outcome::Affected(0)
                } else {
                    match broken(before, table, row, (schema.constraints)(table), 0) {
                        Some(name) => after == before && outcome == Outcome::Broken(name),
                        None => after == before.with(table, rows.push(row)) && outcome
                            == Outcome::Affected(1),
                    }
                }
            },
            Command::Select { items, table, conditions, .. } => {
                let rows = before.table(table);
                &&& after == before
                &&& match outcome {
                    Outcome::Returned(Some(values)) => exists|i: int|
                        0 <= i < rows.len() && binding.passes(conditions, #[trigger] rows[i])
                            && values == binding.returned(items, rows[i]),
                    Outcome::Returned(None) => forall|i: int|
                        0 <= i < rows.len() ==> !binding.passes(conditions, #[trigger] rows[i]),
                    _ => false,
                }
            },
            Command::Update { table, columns, terms, conditions } => {
                let rows = before.table(table);
                &&& after == before.with(
                    table,
                    Seq::new(
                        rows.len(),
                        |i: int|
                            if binding.passes(conditions, rows[i]) {
                                binding.filled(rows[i], columns, terms, columns.len() as int)
                            } else {
                                rows[i]
                            },
                    ),
                )
                &&& outcome == Outcome::Affected(
                    binding.passing(conditions, rows, rows.len() as int),
                )
            },
            Command::Report { probes, labels } => {
                &&& after == before
                &&& outcome matches Outcome::Reported(values)
                &&& forall|k: int|
                    0 <= k < probes.len() ==> binding.may_report(
                        before,
                        #[trigger] probes[k],
                        values[labels[k]],
                    )
            },
        }
    }
}

/// Where a row before the `n`th passes, one of them is the newest of those
/// that do.
proof fn lemma_newest_before(
    binding: Binding,
    conditions: Seq<Condition>,
    order: Column,
    rows: Seq<Row>,
    n: int,
) -> (newest: int)
    requires
        0 <= n <= rows.len(),
        exists|i: int| 0 <= i < n && binding.passes(conditions, #[trigger] rows[i]),
    ensures
        0 <= newest < n,
        binding.passes(conditions, rows[newest]),
        forall|j: int|
            0 <= j < n && binding.passes(conditions, #[trigger] rows[j])
                ==> rows[j][order]->Time_0 <= rows[newest][order]->Time_0,
    decreases n,
{
    if exists|i: int| 0 <= i < n - 1 && binding.passes(conditions, #[trigger] rows[i]) {
        let newest = lemma_newest_before(binding, conditions, order, rows, n - 1);
        if binding.passes(conditions, rows[n - 1]) && rows[newest][order]->Time_0
            <= rows[n - 1][order]->Time_0 {
            n - 1
        } else {
            newest
        }
    } else {
        n - 1
    }
}

/// There is a value that a column of a report may hold.
proof fn lemma_something_is_reported(
    binding: Binding,
    database: Database,
    probe: Probe,
) -> (value: Value)
    ensures
        binding.may_report(database, probe, value),
{
    match probe {
        Probe::Exists { table, conditions } => Value::Flag(
            exists|i: int|
                0 <= i < database.table(table).len() && binding.passes(
                    conditions,
                    #[trigger] database.table(table)[i],
                ),
        ),
        Probe::Newest { test, table, conditions, order } => {
            let rows = database.table(table);
            if exists|i: int| 0 <= i < rows.len() && binding.passes(conditions, #[trigger] rows[i]) {
                let newest = lemma_newest_before(
                    binding,
                    conditions,
                    order,
                    rows,
                    rows.len() as int,
                );
                assert(binding.is_newest_at(conditions, order, rows, newest));
                if binding.conjunction(test, rows[newest]) is Null {
                    Value::Flag(false)
                } else {
                    binding.conjunction(test, rows[newest])
                }
            } else {
                Value::Flag(false)
            }
        },
        Probe::Joined { left, right, on, conditions, listed, list } => Value::Flag(
            binding.is_joined(
                database.table(left),
                database.table(right),
                on,
                conditions,
                listed,
                list,
            ),
        ),
    }
}

/// Reports of the first `n` columns.
proof fn lemma_columns_are_reported(
    binding: Binding,
    database: Database,
    probes: Seq<Probe>,
    labels: Seq<Label>,
    n: int,
) -> (values: Map<Label, Value>)
    requires
        0 <= n <= probes.len() == labels.len(),
        labels.no_duplicates(),
    ensures
        forall|k: int|
            0 <= k < n ==> binding.may_report(database, #[trigger] probes[k], values[labels[k]]),
    decreases n,
{
    if n == 0 {
        Map::empty()
    } else {
        let earlier = lemma_columns_are_reported(binding, database, probes, labels, n - 1);
        let value = lemma_something_is_reported(binding, database, probes[n - 1]);
        let values = earlier.insert(labels[n - 1], value);
        assert forall|k: int| 0 <= k < n implies binding.may_report(
            database,
            #[trigger] probes[k],
            values[labels[k]],
        ) by {
            if k < n - 1 {
                assert(labels[k] != labels[n - 1]);
            }
        }
        values
    }
}

/// Every command ends, whatever the tables hold: a report does if its columns
/// have different names.
pub proof fn law_command_ends(command: Command, schema: Schema, binding: Binding, before: Database)
    requires
        command matches Command::Report { probes, labels } ==> probes.len() == labels.len()
            && labels.no_duplicates(),
    ensures
        exists|after: Database, outcome: Outcome| #[trigger]
            command.may_end(schema, binding, before, after, outcome),
{
    match command {
        Command::Insert { table, columns, terms, unless } => {
            let rows = before.table(table);
            let row = binding.filled(
                binding.fresh(schema, table),
                columns,
                terms,
                columns.len() as int,
            );
            let grown = before.with(table, rows.push(row));
            assert(command.may_end(schema, binding, before, before, Outcome::Affected(0))
                || command.may_end(schema, binding, before, grown, Outcome::Affected(1))
                || command.may_end(
                schema,
                binding,
                before,
                before,
                Outcome::Broken(broken(before, table, row, (schema.constraints)(table), 0)->0),
            ));
        },
        Command::Select { items, table, conditions, .. } => {
            let rows = before.table(table);
            if exists|i: int| 0 <= i < rows.len() && binding.passes(conditions, #[trigger] rows[i]) {
                let i = choose|i: int|
                    0 <= i < rows.len() && binding.passes(conditions, #[trigger] rows[i]);
                assert(command.may_end(
                    schema,
                    binding,
                    before,
                    before,
                    Outcome::Returned(Some(binding.returned(items, rows[i]))),
                ));
            } else {
                assert(command.may_end(
                    schema,
                    binding,
                    before,
                    before,
                    Outcome::Returned(None),
                ));
            }
        },
        Command::Update { table, columns, terms, conditions } => {
            let rows = before.table(table);
            let after = before.with(
                table,
                Seq::new(
                    rows.len(),
                    |i: int|
                        if binding.passes(conditions, rows[i]) {
                            binding.filled(rows[i], columns, terms, columns.len() as int)
                        } else {
                            rows[i]
                        },
                ),
            );
            assert(command.may_end(
                schema,
                binding,
                before,
                after,
                Outcome::Affected(binding.passing(conditions, rows, rows.len() as int)),
            ));
        },
        Command::Report { probes, labels } => {
            let values = lemma_columns_are_reported(
                binding,
                before,
                probes,
                labels,
                probes.len() as int,
            );
            assert(command.may_end(schema, binding, before, before, Outcome::Reported(values)));
        },
    }
}

/// A row passes one condition if it is true.
pub proof fn lemma_passes_one(binding: Binding, condition: Condition, row: Row)
    ensures
        binding.passes(seq![condition], row) == (binding.truth(condition, row) == Some(true)),
{
    let conditions = seq![condition];
    assert(conditions[0] == condition);
}

/// A row passes two conditions if both are true.
pub proof fn lemma_passes_two(binding: Binding, first: Condition, second: Condition, row: Row)
    ensures
        binding.passes(seq![first, second], row) == (binding.truth(first, row) == Some(true)
            && binding.truth(second, row) == Some(true)),
{
    let conditions = seq![first, second];
    assert(conditions[0] == first);
    assert(conditions[1] == second);
}

/// A row passes three conditions if all are true.
pub proof fn lemma_passes_three(
    binding: Binding,
    first: Condition,
    second: Condition,
    third: Condition,
    row: Row,
)
    ensures
        binding.passes(seq![first, second, third], row) == (binding.truth(first, row) == Some(true)
            && binding.truth(second, row) == Some(true) && binding.truth(third, row) == Some(
            true,
        )),
{
    let conditions = seq![first, second, third];
    assert(conditions[0] == first);
    assert(conditions[1] == second);
    assert(conditions[2] == third);
}

/// Rows agree on a column if it holds the same in both, and no `NULL`.
pub proof fn lemma_agrees_on_one(left: Row, right: Row, column: Column)
    ensures
        agree(left, right, seq![column]) == (left[column] == right[column] && !(
        left[column] is Null)),
{
    let columns = seq![column];
    assert(columns[0] == column);
}

/// Rows agree on two columns if they agree on each.
pub proof fn lemma_agrees_on_two(left: Row, right: Row, first: Column, second: Column)
    ensures
        agree(left, right, seq![first, second]) == (left[first] == right[first] && !(
        left[first] is Null) && left[second] == right[second] && !(left[second] is Null)),
{
    let columns = seq![first, second];
    assert(columns[0] == first);
    assert(columns[1] == second);
}

} // verus!
