//! The definitions of the tables: how the migrations write them, and what they
//! demand of the rows.

use vstd::prelude::*;

use crate::postgres_module::tables;
use crate::postgres_plugin::reading;
use crate::postgres_plugin::statements::Statement;
use crate::postgres_plugin::tables as plugin_tables;
use crate::schema;
use crate::spelling;
use crate::spelling::Words;
use crate::sql;
use crate::sql::{Column, Command, Constraint, Schema, Table, Term};

verus! {

/// What a column holds.
pub enum Kind {
    Text,
    Texts,
    Whole,
    Moment,
    Flag,
}

/// Whether a column may hold `NULL`, and whether it is the key.
pub enum Demand {
    Free,
    Filled,
    Key,
}

/// The column of a table that holds a value of every row.
pub struct Reference {
    pub table: Table,
    pub column: Column,
    pub deferred: bool,
}

/// One column of a table.
pub struct ColumnDefinition {
    pub column: Column,
    pub kind: Kind,
    pub demand: Demand,
    pub reference: Option<Reference>,
    pub default: Option<Term>,
}

/// One statement that defines tables.
pub enum Definition {
    /// Makes a table with the columns. `key` is empty where a column is the
    /// key.
    Create { table: Table, columns: Seq<ColumnDefinition>, key: Seq<Column> },
    /// Makes an index of the rows that hold `NULL` in the column `alive`; no
    /// two of them have the same values in the columns.
    Index { name: Seq<char>, table: Table, columns: Seq<Column>, alive: Column },
}

/// A column that refers to no other.
pub open spec fn plain(
    column: Column,
    kind: Kind,
    demand: Demand,
    default: Option<Term>,
) -> ColumnDefinition {
    ColumnDefinition { column, kind, demand, reference: None, default }
}

impl Kind {
    /// How the kind is written.
    pub open spec fn name(self) -> Seq<char> {
        match self {
            Kind::Text => "text"@,
            Kind::Texts => "text[]"@,
            Kind::Whole => "bigint"@,
            Kind::Moment => "timestamptz"@,
            Kind::Flag => "boolean"@,
        }
    }
}

impl Demand {
    /// How the demand is written.
    pub open spec fn words(self, rest: Words) -> Words {
        match self {
            Demand::Free => rest,
            Demand::Filled => spelling::word(" NOT NULL"@, rest),
            Demand::Key => spelling::word(" PRIMARY KEY"@, rest),
        }
    }
}

impl Reference {
    /// How the reference is written.
    pub open spec fn words(self, rest: Words) -> Words {
        let (start, end) = if self.deferred {
            ("\n        REFERENCES "@, ") DEFERRABLE INITIALLY DEFERRED"@)
        } else {
            (" REFERENCES "@, ")"@)
        };
        spelling::word(
            start,
            spelling::word(
                self.table.name(),
                spelling::word(
                    "("@,
                    spelling::word(self.column.name(), spelling::word(end, rest)),
                ),
            ),
        )
    }
}

impl ColumnDefinition {
    /// How the column is written.
    pub open spec fn words(self, rest: Words) -> Words {
        let defaulted = match self.default {
            Some(term) => spelling::word(" DEFAULT "@, term.words(rest)),
            None => rest,
        };
        let referring = match self.reference {
            Some(reference) => reference.words(defaulted),
            None => defaulted,
        };
        spelling::word(
            "    "@,
            spelling::word(
                self.column.name(),
                spelling::word(
                    " "@,
                    spelling::word(self.kind.name(), self.demand.words(referring)),
                ),
            ),
        )
    }
}

/// The names of the columns from the `k`th on.
pub open spec fn listed_words(columns: Seq<Column>, k: int, rest: Words) -> Words
    decreases columns.len() - k,
{
    if k >= columns.len() {
        rest
    } else {
        let own = spelling::word(columns[k].name(), listed_words(columns, k + 1, rest));
        if k == 0 {
            own
        } else {
            spelling::word(", "@, own)
        }
    }
}

/// The columns from the `k`th on, each on a line.
pub open spec fn column_lines(columns: Seq<ColumnDefinition>, k: int, rest: Words) -> Words
    decreases columns.len() - k,
{
    if k >= columns.len() {
        rest
    } else if k + 1 == columns.len() {
        columns[k].words(rest)
    } else {
        columns[k].words(spelling::word(",\n"@, column_lines(columns, k + 1, rest)))
    }
}

impl Definition {
    /// What stands behind the columns of a table.
    pub open spec fn closing(self, rest: Words) -> Words {
        let end = spelling::word("\n);\n"@, rest);
        if self->key.len() == 0 {
            end
        } else {
            spelling::word(
                ",\n    PRIMARY KEY ("@,
                listed_words(self->key, 0, spelling::word(")"@, end)),
            )
        }
    }

    /// How the definition is written.
    pub open spec fn words(self, rest: Words) -> Words {
        match self {
            Definition::Create { table, columns, .. } => spelling::word(
                "CREATE TABLE "@,
                spelling::word(
                    table.name(),
                    spelling::word(" (\n"@, column_lines(columns, 0, self.closing(rest))),
                ),
            ),
            Definition::Index { name, table, columns, alive } => spelling::word(
                "CREATE UNIQUE INDEX "@,
                spelling::word(
                    name,
                    spelling::word(
                        "\n    ON "@,
                        spelling::word(
                            table.name(),
                            spelling::word(
                                " ("@,
                                listed_words(
                                    columns,
                                    0,
                                    spelling::word(
                                        ") WHERE "@,
                                        spelling::word(
                                            alive.name(),
                                            spelling::word(" IS NULL;\n"@, rest),
                                        ),
                                    ),
                                ),
                            ),
                        ),
                    ),
                ),
            ),
        }
    }
}

/// The definitions from the `k`th on.
pub open spec fn definition_words(definitions: Seq<Definition>, k: int, rest: Words) -> Words
    decreases definitions.len() - k,
{
    if k >= definitions.len() {
        rest
    } else {
        definitions[k].words(definition_words(definitions, k + 1, rest))
    }
}

/// What a column of the table demands of a row at once.
pub open spec fn column_demands(table: Table, definition: ColumnDefinition) -> Seq<Constraint> {
    let key = if definition.demand is Key {
        seq![
            Constraint::Unique {
                name: table.name() + "_pkey"@,
                columns: seq![definition.column],
                alive: None,
            },
        ]
    } else {
        Seq::empty()
    };
    match definition.reference {
        Some(reference) => if !reference.deferred && reference.column == definition.column {
            key.push(
                Constraint::References {
                    name: table.name() + "_"@ + definition.column.name() + "_fkey"@,
                    column: definition.column,
                    table: reference.table,
                },
            )
        } else {
            key
        },
        None => key,
    }
}

/// What the first `k` columns of the table demand.
pub open spec fn columns_demand(
    table: Table,
    columns: Seq<ColumnDefinition>,
    k: int,
) -> Seq<Constraint>
    decreases k,
{
    if k <= 0 {
        Seq::empty()
    } else {
        columns_demand(table, columns, k - 1) + column_demands(table, columns[k - 1])
    }
}

impl Definition {
    /// What the definition demands of the rows of the table.
    pub open spec fn demands(self, table: Table) -> Seq<Constraint> {
        match self {
            Definition::Create { table: own, columns, key } => if own == table {
                columns_demand(table, columns, columns.len() as int) + if key.len() == 0 {
                    Seq::empty()
                } else {
                    seq![
                        Constraint::Unique {
                            name: table.name() + "_pkey"@,
                            columns: key,
                            alive: None,
                        },
                    ]
                }
            } else {
                Seq::empty()
            },
            Definition::Index { name, table: own, columns, alive } => if own == table {
                seq![Constraint::Unique { name, columns, alive: Some(alive) }]
            } else {
                Seq::empty()
            },
        }
    }

    /// Whether the schema gives the columns of the table what they hold if
    /// nothing is said.
    pub open spec fn defaults_are(self, schema: Schema) -> bool {
        self matches Definition::Create { table, columns, .. } ==> forall|k: int|
            0 <= k < columns.len() ==> (schema.defaults)(
                table,
                (#[trigger] columns[k]).column,
            ) == columns[k].default
    }
}

/// What the first `k` definitions demand of the rows of the table.
pub open spec fn definitions_demand(
    definitions: Seq<Definition>,
    table: Table,
    k: int,
) -> Seq<Constraint>
    decreases k,
{
    if k <= 0 {
        Seq::empty()
    } else {
        definitions_demand(definitions, table, k - 1) + definitions[k - 1].demands(table)
    }
}

/// How the table `organizations` is made.
pub open spec fn organizations_definition() -> Definition {
    Definition::Create {
        table: Table::Organizations,
        columns: seq![
            plain(Column::OrganizationId, Kind::Text, Demand::Key, None),
            plain(Column::Name, Kind::Text, Demand::Filled, None),
            plain(Column::Slug, Kind::Text, Demand::Filled, None),
            plain(Column::Revision, Kind::Whole, Demand::Filled, Some(Term::One)),
            plain(Column::ArchivedAt, Kind::Moment, Demand::Free, None),
            plain(Column::CreatedAt, Kind::Moment, Demand::Filled, Some(Term::Now)),
            plain(Column::UpdatedAt, Kind::Moment, Demand::Filled, Some(Term::Now)),
        ],
        key: seq![],
    }
}

/// How the index `organizations_active_slug_key` is made.
pub open spec fn organizations_active_slug_key_definition() -> Definition {
    Definition::Index {
        name: "organizations_active_slug_key"@,
        table: Table::Organizations,
        columns: seq![Column::Slug],
        alive: Column::ArchivedAt,
    }
}

/// How the table `organization_roles` is made.
pub open spec fn organization_roles_definition() -> Definition {
    Definition::Create {
        table: Table::Roles,
        columns: seq![
            plain(Column::RoleId, Kind::Text, Demand::Key, None),
            ColumnDefinition {
                column: Column::OrganizationId,
                kind: Kind::Text,
                demand: Demand::Filled,
                reference: Some(
                    Reference {
                        table: Table::Organizations,
                        column: Column::OrganizationId,
                        deferred: false,
                    },
                ),
                default: None,
            },
            plain(Column::Name, Kind::Text, Demand::Filled, None),
            plain(Column::Permissions, Kind::Texts, Demand::Filled, None),
            plain(Column::SystemKey, Kind::Text, Demand::Free, None),
        ],
        key: seq![],
    }
}

/// How the table `organization_memberships` is made.
pub open spec fn organization_memberships_definition() -> Definition {
    Definition::Create {
        table: Table::Memberships,
        columns: seq![
            plain(Column::MembershipId, Kind::Text, Demand::Key, None),
            ColumnDefinition {
                column: Column::OrganizationId,
                kind: Kind::Text,
                demand: Demand::Filled,
                reference: Some(
                    Reference {
                        table: Table::Organizations,
                        column: Column::OrganizationId,
                        deferred: false,
                    },
                ),
                default: None,
            },
            plain(Column::Subject, Kind::Text, Demand::Filled, None),
            ColumnDefinition {
                column: Column::RoleId,
                kind: Kind::Text,
                demand: Demand::Filled,
                reference: Some(
                    Reference {
                        table: Table::Roles,
                        column: Column::RoleId,
                        deferred: false,
                    },
                ),
                default: None,
            },
            plain(Column::Revision, Kind::Whole, Demand::Filled, Some(Term::One)),
            plain(Column::RemovedAt, Kind::Moment, Demand::Free, None),
            plain(Column::CreatedAt, Kind::Moment, Demand::Filled, Some(Term::Now)),
            plain(Column::UpdatedAt, Kind::Moment, Demand::Filled, Some(Term::Now)),
        ],
        key: seq![],
    }
}

/// How the index `organization_memberships_active_subject_key` is made.
pub open spec fn organization_memberships_active_subject_key_definition() -> Definition {
    Definition::Index {
        name: "organization_memberships_active_subject_key"@,
        table: Table::Memberships,
        columns: seq![Column::OrganizationId, Column::Subject],
        alive: Column::RemovedAt,
    }
}

/// What the first migration makes.
pub open spec fn first_definitions() -> Seq<Definition> {
    seq![
        organizations_definition(),
        organizations_active_slug_key_definition(),
        organization_roles_definition(),
        organization_memberships_definition(),
        organization_memberships_active_subject_key_definition(),
    ]
}

/// Where the lines of the text stand.
#[verifier::rlimit(100)]
proof fn lemma_first_lines()
    ensures
        schema::CREATE_ORGANIZATIONS_SQL@.len() == 1253,
        spelling::is_at(schema::CREATE_ORGANIZATIONS_SQL@, 0, "CREATE TABLE organizations (\n"@),
        spelling::is_at(schema::CREATE_ORGANIZATIONS_SQL@, 29, "    organization_id text PRIMARY KEY,\n"@),
        spelling::is_at(schema::CREATE_ORGANIZATIONS_SQL@, 67, "    name text NOT NULL,\n"@),
        spelling::is_at(schema::CREATE_ORGANIZATIONS_SQL@, 91, "    slug text NOT NULL,\n"@),
        spelling::is_at(schema::CREATE_ORGANIZATIONS_SQL@, 115, "    revision bigint NOT NULL DEFAULT 1,\n"@),
        spelling::is_at(schema::CREATE_ORGANIZATIONS_SQL@, 155, "    archived_at timestamptz,\n"@),
        spelling::is_at(schema::CREATE_ORGANIZATIONS_SQL@, 184, "    created_at timestamptz NOT NULL DEFAULT transaction_timestamp(),\n"@),
        spelling::is_at(schema::CREATE_ORGANIZATIONS_SQL@, 253, "    updated_at timestamptz NOT NULL DEFAULT transaction_timestamp()"@),
        spelling::is_at(schema::CREATE_ORGANIZATIONS_SQL@, 320, "\n);\n"@),
        spelling::is_at(schema::CREATE_ORGANIZATIONS_SQL@, 324, "CREATE UNIQUE INDEX organizations_active_slug_key\n    ON organizations (slug) WHERE archived_at IS NULL;\n"@),
        spelling::is_at(schema::CREATE_ORGANIZATIONS_SQL@, 429, "CREATE TABLE organization_roles (\n"@),
        spelling::is_at(schema::CREATE_ORGANIZATIONS_SQL@, 463, "    role_id text PRIMARY KEY,\n"@),
        spelling::is_at(schema::CREATE_ORGANIZATIONS_SQL@, 493, "    organization_id text NOT NULL REFERENCES organizations(organization_id),\n"@),
        spelling::is_at(schema::CREATE_ORGANIZATIONS_SQL@, 570, "    name text NOT NULL,\n"@),
        spelling::is_at(schema::CREATE_ORGANIZATIONS_SQL@, 594, "    permissions text[] NOT NULL,\n"@),
        spelling::is_at(schema::CREATE_ORGANIZATIONS_SQL@, 627, "    system_key text"@),
        spelling::is_at(schema::CREATE_ORGANIZATIONS_SQL@, 646, "\n);\n"@),
        spelling::is_at(schema::CREATE_ORGANIZATIONS_SQL@, 650, "CREATE TABLE organization_memberships (\n"@),
        spelling::is_at(schema::CREATE_ORGANIZATIONS_SQL@, 690, "    membership_id text PRIMARY KEY,\n"@),
        spelling::is_at(schema::CREATE_ORGANIZATIONS_SQL@, 726, "    organization_id text NOT NULL REFERENCES organizations(organization_id),\n"@),
        spelling::is_at(schema::CREATE_ORGANIZATIONS_SQL@, 803, "    subject text NOT NULL,\n"@),
        spelling::is_at(schema::CREATE_ORGANIZATIONS_SQL@, 830, "    role_id text NOT NULL REFERENCES organization_roles(role_id),\n"@),
        spelling::is_at(schema::CREATE_ORGANIZATIONS_SQL@, 896, "    revision bigint NOT NULL DEFAULT 1,\n"@),
        spelling::is_at(schema::CREATE_ORGANIZATIONS_SQL@, 936, "    removed_at timestamptz,\n"@),
        spelling::is_at(schema::CREATE_ORGANIZATIONS_SQL@, 964, "    created_at timestamptz NOT NULL DEFAULT transaction_timestamp(),\n"@),
        spelling::is_at(schema::CREATE_ORGANIZATIONS_SQL@, 1033, "    updated_at timestamptz NOT NULL DEFAULT transaction_timestamp()"@),
        spelling::is_at(schema::CREATE_ORGANIZATIONS_SQL@, 1100, "\n);\n"@),
        spelling::is_at(schema::CREATE_ORGANIZATIONS_SQL@, 1104, "CREATE UNIQUE INDEX organization_memberships_active_subject_key\n    ON organization_memberships (organization_id, subject) WHERE removed_at IS NULL;\n"@),
{
    reveal_strlit("CREATE TABLE organizations (
    organization_id text PRIMARY KEY,
    name text NOT NULL,
    slug text NOT NULL,
    revision bigint NOT NULL DEFAULT 1,
    archived_at timestamptz,
    created_at timestamptz NOT NULL DEFAULT transaction_timestamp(),
    updated_at timestamptz NOT NULL DEFAULT transaction_timestamp()
);
CREATE UNIQUE INDEX organizations_active_slug_key
    ON organizations (slug) WHERE archived_at IS NULL;
CREATE TABLE organization_roles (
    role_id text PRIMARY KEY,
    organization_id text NOT NULL REFERENCES organizations(organization_id),
    name text NOT NULL,
    permissions text[] NOT NULL,
    system_key text
);
CREATE TABLE organization_memberships (
    membership_id text PRIMARY KEY,
    organization_id text NOT NULL REFERENCES organizations(organization_id),
    subject text NOT NULL,
    role_id text NOT NULL REFERENCES organization_roles(role_id),
    revision bigint NOT NULL DEFAULT 1,
    removed_at timestamptz,
    created_at timestamptz NOT NULL DEFAULT transaction_timestamp(),
    updated_at timestamptz NOT NULL DEFAULT transaction_timestamp()
);
CREATE UNIQUE INDEX organization_memberships_active_subject_key
    ON organization_memberships (organization_id, subject) WHERE removed_at IS NULL;
");
    reveal_strlit("CREATE TABLE organizations (\n");
    reveal_strlit("    organization_id text PRIMARY KEY,\n");
    reveal_strlit("    name text NOT NULL,\n");
    reveal_strlit("    slug text NOT NULL,\n");
    reveal_strlit("    revision bigint NOT NULL DEFAULT 1,\n");
    reveal_strlit("    archived_at timestamptz,\n");
    reveal_strlit("    created_at timestamptz NOT NULL DEFAULT transaction_timestamp(),\n");
    reveal_strlit("    updated_at timestamptz NOT NULL DEFAULT transaction_timestamp()");
    reveal_strlit("\n);\n");
    reveal_strlit("CREATE UNIQUE INDEX organizations_active_slug_key\n    ON organizations (slug) WHERE archived_at IS NULL;\n");
    reveal_strlit("CREATE TABLE organization_roles (\n");
    reveal_strlit("    role_id text PRIMARY KEY,\n");
    reveal_strlit("    organization_id text NOT NULL REFERENCES organizations(organization_id),\n");
    reveal_strlit("    permissions text[] NOT NULL,\n");
    reveal_strlit("    system_key text");
    reveal_strlit("CREATE TABLE organization_memberships (\n");
    reveal_strlit("    membership_id text PRIMARY KEY,\n");
    reveal_strlit("    subject text NOT NULL,\n");
    reveal_strlit("    role_id text NOT NULL REFERENCES organization_roles(role_id),\n");
    reveal_strlit("    removed_at timestamptz,\n");
    reveal_strlit("CREATE UNIQUE INDEX organization_memberships_active_subject_key\n    ON organization_memberships (organization_id, subject) WHERE removed_at IS NULL;\n");
}

proof fn lemma_organizations_opens(rest: Words)
    ensures
        "CREATE TABLE organizations (\n"@.len() == 29,
        ({
            let definition = organizations_definition();
            let columns = definition->Create_columns;
            let tail = definition.closing(rest);
            spelling::begins("CREATE TABLE organizations (\n"@, 0, organizations_definition().words(rest), column_lines(columns, 0, tail))
        }),
{
    reveal_strlit("CREATE TABLE organizations (\n");
    reveal_strlit("CREATE TABLE ");
    reveal_strlit("organizations");
    reveal_strlit(" (\n");
    reveal_with_fuel(spelling::begins, 4);
}

proof fn lemma_organizations_has_organization_id(rest: Words)
    ensures
        "    organization_id text PRIMARY KEY,\n"@.len() == 38,
        ({
            let definition = organizations_definition();
            let columns = definition->Create_columns;
            let tail = definition.closing(rest);
            spelling::begins("    organization_id text PRIMARY KEY,\n"@, 0, column_lines(columns, 0, tail), column_lines(columns, 1, tail))
        }),
{
    reveal_strlit("    organization_id text PRIMARY KEY,\n");
    reveal_strlit("    ");
    reveal_strlit("organization_id");
    reveal_strlit(" ");
    reveal_strlit("text");
    reveal_strlit(" PRIMARY KEY");
    reveal_strlit(",\n");
    reveal_with_fuel(spelling::begins, 7);
}

proof fn lemma_organizations_has_name(rest: Words)
    ensures
        "    name text NOT NULL,\n"@.len() == 24,
        ({
            let definition = organizations_definition();
            let columns = definition->Create_columns;
            let tail = definition.closing(rest);
            spelling::begins("    name text NOT NULL,\n"@, 0, column_lines(columns, 1, tail), column_lines(columns, 2, tail))
        }),
{
    reveal_strlit("    name text NOT NULL,\n");
    reveal_strlit("    ");
    reveal_strlit("name");
    reveal_strlit(" ");
    reveal_strlit("text");
    reveal_strlit(" NOT NULL");
    reveal_strlit(",\n");
    reveal_with_fuel(spelling::begins, 7);
}

proof fn lemma_organizations_has_slug(rest: Words)
    ensures
        "    slug text NOT NULL,\n"@.len() == 24,
        ({
            let definition = organizations_definition();
            let columns = definition->Create_columns;
            let tail = definition.closing(rest);
            spelling::begins("    slug text NOT NULL,\n"@, 0, column_lines(columns, 2, tail), column_lines(columns, 3, tail))
        }),
{
    reveal_strlit("    slug text NOT NULL,\n");
    reveal_strlit("    ");
    reveal_strlit("slug");
    reveal_strlit(" ");
    reveal_strlit("text");
    reveal_strlit(" NOT NULL");
    reveal_strlit(",\n");
    reveal_with_fuel(spelling::begins, 7);
}

proof fn lemma_organizations_has_revision(rest: Words)
    ensures
        "    revision bigint NOT NULL DEFAULT 1,\n"@.len() == 40,
        ({
            let definition = organizations_definition();
            let columns = definition->Create_columns;
            let tail = definition.closing(rest);
            spelling::begins("    revision bigint NOT NULL DEFAULT 1,\n"@, 0, column_lines(columns, 3, tail), column_lines(columns, 4, tail))
        }),
{
    reveal_strlit("    revision bigint NOT NULL DEFAULT 1,\n");
    reveal_strlit("    ");
    reveal_strlit("revision");
    reveal_strlit(" ");
    reveal_strlit("bigint");
    reveal_strlit(" NOT NULL");
    reveal_strlit(" DEFAULT ");
    reveal_strlit("1");
    reveal_strlit(",\n");
    reveal_with_fuel(spelling::begins, 9);
}

proof fn lemma_organizations_has_archived_at(rest: Words)
    ensures
        "    archived_at timestamptz,\n"@.len() == 29,
        ({
            let definition = organizations_definition();
            let columns = definition->Create_columns;
            let tail = definition.closing(rest);
            spelling::begins("    archived_at timestamptz,\n"@, 0, column_lines(columns, 4, tail), column_lines(columns, 5, tail))
        }),
{
    reveal_strlit("    archived_at timestamptz,\n");
    reveal_strlit("    ");
    reveal_strlit("archived_at");
    reveal_strlit(" ");
    reveal_strlit("timestamptz");
    reveal_strlit(",\n");
    reveal_with_fuel(spelling::begins, 6);
}

proof fn lemma_organizations_has_created_at(rest: Words)
    ensures
        "    created_at timestamptz NOT NULL DEFAULT transaction_timestamp(),\n"@.len() == 69,
        ({
            let definition = organizations_definition();
            let columns = definition->Create_columns;
            let tail = definition.closing(rest);
            spelling::begins("    created_at timestamptz NOT NULL DEFAULT transaction_timestamp(),\n"@, 0, column_lines(columns, 5, tail), column_lines(columns, 6, tail))
        }),
{
    reveal_strlit("    created_at timestamptz NOT NULL DEFAULT transaction_timestamp(),\n");
    reveal_strlit("    ");
    reveal_strlit("created_at");
    reveal_strlit(" ");
    reveal_strlit("timestamptz");
    reveal_strlit(" NOT NULL");
    reveal_strlit(" DEFAULT ");
    reveal_strlit("transaction_timestamp()");
    reveal_strlit(",\n");
    reveal_with_fuel(spelling::begins, 9);
}

proof fn lemma_organizations_has_updated_at(rest: Words)
    ensures
        "    updated_at timestamptz NOT NULL DEFAULT transaction_timestamp()"@.len() == 67,
        ({
            let definition = organizations_definition();
            let columns = definition->Create_columns;
            let tail = definition.closing(rest);
            spelling::begins("    updated_at timestamptz NOT NULL DEFAULT transaction_timestamp()"@, 0, column_lines(columns, 6, tail), tail)
        }),
{
    reveal_strlit("    updated_at timestamptz NOT NULL DEFAULT transaction_timestamp()");
    reveal_strlit("    ");
    reveal_strlit("updated_at");
    reveal_strlit(" ");
    reveal_strlit("timestamptz");
    reveal_strlit(" NOT NULL");
    reveal_strlit(" DEFAULT ");
    reveal_strlit("transaction_timestamp()");
    reveal_with_fuel(spelling::begins, 8);
}

proof fn lemma_organizations_closes(rest: Words)
    ensures
        "\n);\n"@.len() == 4,
        ({
            let definition = organizations_definition();
            let columns = definition->Create_columns;
            let tail = definition.closing(rest);
            spelling::begins("\n);\n"@, 0, tail, rest)
        }),
{
    reveal_strlit("\n);\n");
    reveal_with_fuel(spelling::begins, 2);
}

proof fn lemma_organizations_is_read(rest: Words)
    requires
        spelling::spells(schema::CREATE_ORGANIZATIONS_SQL@, 324, rest),
    ensures
        spelling::spells(schema::CREATE_ORGANIZATIONS_SQL@, 0, organizations_definition().words(rest)),
{
    lemma_first_lines();
    let text = schema::CREATE_ORGANIZATIONS_SQL@;
    let definition = organizations_definition();
    let columns = definition->Create_columns;
    let tail = definition.closing(rest);
    lemma_organizations_closes(rest);
    spelling::lemma_begins("\n);\n"@, 0, tail, rest, text, 320);
    lemma_organizations_has_updated_at(rest);
    spelling::lemma_begins("    updated_at timestamptz NOT NULL DEFAULT transaction_timestamp()"@, 0, column_lines(columns, 6, tail), tail, text, 253);
    lemma_organizations_has_created_at(rest);
    spelling::lemma_begins("    created_at timestamptz NOT NULL DEFAULT transaction_timestamp(),\n"@, 0, column_lines(columns, 5, tail), column_lines(columns, 6, tail), text, 184);
    lemma_organizations_has_archived_at(rest);
    spelling::lemma_begins("    archived_at timestamptz,\n"@, 0, column_lines(columns, 4, tail), column_lines(columns, 5, tail), text, 155);
    lemma_organizations_has_revision(rest);
    spelling::lemma_begins("    revision bigint NOT NULL DEFAULT 1,\n"@, 0, column_lines(columns, 3, tail), column_lines(columns, 4, tail), text, 115);
    lemma_organizations_has_slug(rest);
    spelling::lemma_begins("    slug text NOT NULL,\n"@, 0, column_lines(columns, 2, tail), column_lines(columns, 3, tail), text, 91);
    lemma_organizations_has_name(rest);
    spelling::lemma_begins("    name text NOT NULL,\n"@, 0, column_lines(columns, 1, tail), column_lines(columns, 2, tail), text, 67);
    lemma_organizations_has_organization_id(rest);
    spelling::lemma_begins("    organization_id text PRIMARY KEY,\n"@, 0, column_lines(columns, 0, tail), column_lines(columns, 1, tail), text, 29);
    lemma_organizations_opens(rest);
    spelling::lemma_begins("CREATE TABLE organizations (\n"@, 0, organizations_definition().words(rest), column_lines(columns, 0, tail), text, 0);
}

proof fn lemma_organizations_active_slug_key_is_read(rest: Words)
    requires
        spelling::spells(schema::CREATE_ORGANIZATIONS_SQL@, 429, rest),
    ensures
        spelling::spells(schema::CREATE_ORGANIZATIONS_SQL@, 324, organizations_active_slug_key_definition().words(rest)),
{
    lemma_first_lines();
    let text = schema::CREATE_ORGANIZATIONS_SQL@;
    let definition = organizations_active_slug_key_definition();
    assert(spelling::begins("CREATE UNIQUE INDEX organizations_active_slug_key\n    ON organizations (slug) WHERE archived_at IS NULL;\n"@, 0, definition.words(rest), rest)) by {
        reveal_strlit("CREATE UNIQUE INDEX organizations_active_slug_key\n    ON organizations (slug) WHERE archived_at IS NULL;\n");
        reveal_strlit("CREATE UNIQUE INDEX ");
        reveal_strlit("organizations_active_slug_key");
        reveal_strlit("\n    ON ");
        reveal_strlit("organizations");
        reveal_strlit(" (");
        reveal_strlit("slug");
        reveal_strlit(", ");
        reveal_strlit(") WHERE ");
        reveal_strlit("archived_at");
        reveal_strlit(" IS NULL;\n");
        reveal_with_fuel(listed_words, 2);
        reveal_with_fuel(spelling::begins, 10);
    }
    reveal_strlit("CREATE UNIQUE INDEX organizations_active_slug_key\n    ON organizations (slug) WHERE archived_at IS NULL;\n");
    spelling::lemma_begins("CREATE UNIQUE INDEX organizations_active_slug_key\n    ON organizations (slug) WHERE archived_at IS NULL;\n"@, 0, definition.words(rest), rest, text, 324);
}

proof fn lemma_organization_roles_opens(rest: Words)
    ensures
        "CREATE TABLE organization_roles (\n"@.len() == 34,
        ({
            let definition = organization_roles_definition();
            let columns = definition->Create_columns;
            let tail = definition.closing(rest);
            spelling::begins("CREATE TABLE organization_roles (\n"@, 0, organization_roles_definition().words(rest), column_lines(columns, 0, tail))
        }),
{
    reveal_strlit("CREATE TABLE organization_roles (\n");
    reveal_strlit("CREATE TABLE ");
    reveal_strlit("organization_roles");
    reveal_strlit(" (\n");
    reveal_with_fuel(spelling::begins, 4);
}

proof fn lemma_organization_roles_has_role_id(rest: Words)
    ensures
        "    role_id text PRIMARY KEY,\n"@.len() == 30,
        ({
            let definition = organization_roles_definition();
            let columns = definition->Create_columns;
            let tail = definition.closing(rest);
            spelling::begins("    role_id text PRIMARY KEY,\n"@, 0, column_lines(columns, 0, tail), column_lines(columns, 1, tail))
        }),
{
    reveal_strlit("    role_id text PRIMARY KEY,\n");
    reveal_strlit("    ");
    reveal_strlit("role_id");
    reveal_strlit(" ");
    reveal_strlit("text");
    reveal_strlit(" PRIMARY KEY");
    reveal_strlit(",\n");
    reveal_with_fuel(spelling::begins, 7);
}

proof fn lemma_organization_roles_has_organization_id(rest: Words)
    ensures
        "    organization_id text NOT NULL REFERENCES organizations(organization_id),\n"@.len() == 77,
        ({
            let definition = organization_roles_definition();
            let columns = definition->Create_columns;
            let tail = definition.closing(rest);
            spelling::begins("    organization_id text NOT NULL REFERENCES organizations(organization_id),\n"@, 0, column_lines(columns, 1, tail), column_lines(columns, 2, tail))
        }),
{
    reveal_strlit("    organization_id text NOT NULL REFERENCES organizations(organization_id),\n");
    reveal_strlit("    ");
    reveal_strlit("organization_id");
    reveal_strlit(" ");
    reveal_strlit("text");
    reveal_strlit(" NOT NULL");
    reveal_strlit(" REFERENCES ");
    reveal_strlit("organizations");
    reveal_strlit("(");
    reveal_strlit(")");
    reveal_strlit(",\n");
    reveal_with_fuel(spelling::begins, 12);
}

proof fn lemma_organization_roles_has_name(rest: Words)
    ensures
        "    name text NOT NULL,\n"@.len() == 24,
        ({
            let definition = organization_roles_definition();
            let columns = definition->Create_columns;
            let tail = definition.closing(rest);
            spelling::begins("    name text NOT NULL,\n"@, 0, column_lines(columns, 2, tail), column_lines(columns, 3, tail))
        }),
{
    reveal_strlit("    name text NOT NULL,\n");
    reveal_strlit("    ");
    reveal_strlit("name");
    reveal_strlit(" ");
    reveal_strlit("text");
    reveal_strlit(" NOT NULL");
    reveal_strlit(",\n");
    reveal_with_fuel(spelling::begins, 7);
}

proof fn lemma_organization_roles_has_permissions(rest: Words)
    ensures
        "    permissions text[] NOT NULL,\n"@.len() == 33,
        ({
            let definition = organization_roles_definition();
            let columns = definition->Create_columns;
            let tail = definition.closing(rest);
            spelling::begins("    permissions text[] NOT NULL,\n"@, 0, column_lines(columns, 3, tail), column_lines(columns, 4, tail))
        }),
{
    reveal_strlit("    permissions text[] NOT NULL,\n");
    reveal_strlit("    ");
    reveal_strlit("permissions");
    reveal_strlit(" ");
    reveal_strlit("text[]");
    reveal_strlit(" NOT NULL");
    reveal_strlit(",\n");
    reveal_with_fuel(spelling::begins, 7);
}

proof fn lemma_organization_roles_has_system_key(rest: Words)
    ensures
        "    system_key text"@.len() == 19,
        ({
            let definition = organization_roles_definition();
            let columns = definition->Create_columns;
            let tail = definition.closing(rest);
            spelling::begins("    system_key text"@, 0, column_lines(columns, 4, tail), tail)
        }),
{
    reveal_strlit("    system_key text");
    reveal_strlit("    ");
    reveal_strlit("system_key");
    reveal_strlit(" ");
    reveal_strlit("text");
    reveal_with_fuel(spelling::begins, 5);
}

proof fn lemma_organization_roles_closes(rest: Words)
    ensures
        "\n);\n"@.len() == 4,
        ({
            let definition = organization_roles_definition();
            let columns = definition->Create_columns;
            let tail = definition.closing(rest);
            spelling::begins("\n);\n"@, 0, tail, rest)
        }),
{
    reveal_strlit("\n);\n");
    reveal_with_fuel(spelling::begins, 2);
}

proof fn lemma_organization_roles_is_read(rest: Words)
    requires
        spelling::spells(schema::CREATE_ORGANIZATIONS_SQL@, 650, rest),
    ensures
        spelling::spells(schema::CREATE_ORGANIZATIONS_SQL@, 429, organization_roles_definition().words(rest)),
{
    lemma_first_lines();
    let text = schema::CREATE_ORGANIZATIONS_SQL@;
    let definition = organization_roles_definition();
    let columns = definition->Create_columns;
    let tail = definition.closing(rest);
    lemma_organization_roles_closes(rest);
    spelling::lemma_begins("\n);\n"@, 0, tail, rest, text, 646);
    lemma_organization_roles_has_system_key(rest);
    spelling::lemma_begins("    system_key text"@, 0, column_lines(columns, 4, tail), tail, text, 627);
    lemma_organization_roles_has_permissions(rest);
    spelling::lemma_begins("    permissions text[] NOT NULL,\n"@, 0, column_lines(columns, 3, tail), column_lines(columns, 4, tail), text, 594);
    lemma_organization_roles_has_name(rest);
    spelling::lemma_begins("    name text NOT NULL,\n"@, 0, column_lines(columns, 2, tail), column_lines(columns, 3, tail), text, 570);
    lemma_organization_roles_has_organization_id(rest);
    spelling::lemma_begins("    organization_id text NOT NULL REFERENCES organizations(organization_id),\n"@, 0, column_lines(columns, 1, tail), column_lines(columns, 2, tail), text, 493);
    lemma_organization_roles_has_role_id(rest);
    spelling::lemma_begins("    role_id text PRIMARY KEY,\n"@, 0, column_lines(columns, 0, tail), column_lines(columns, 1, tail), text, 463);
    lemma_organization_roles_opens(rest);
    spelling::lemma_begins("CREATE TABLE organization_roles (\n"@, 0, organization_roles_definition().words(rest), column_lines(columns, 0, tail), text, 429);
}

proof fn lemma_organization_memberships_opens(rest: Words)
    ensures
        "CREATE TABLE organization_memberships (\n"@.len() == 40,
        ({
            let definition = organization_memberships_definition();
            let columns = definition->Create_columns;
            let tail = definition.closing(rest);
            spelling::begins("CREATE TABLE organization_memberships (\n"@, 0, organization_memberships_definition().words(rest), column_lines(columns, 0, tail))
        }),
{
    reveal_strlit("CREATE TABLE organization_memberships (\n");
    reveal_strlit("CREATE TABLE ");
    reveal_strlit("organization_memberships");
    reveal_strlit(" (\n");
    reveal_with_fuel(spelling::begins, 4);
}

proof fn lemma_organization_memberships_has_membership_id(rest: Words)
    ensures
        "    membership_id text PRIMARY KEY,\n"@.len() == 36,
        ({
            let definition = organization_memberships_definition();
            let columns = definition->Create_columns;
            let tail = definition.closing(rest);
            spelling::begins("    membership_id text PRIMARY KEY,\n"@, 0, column_lines(columns, 0, tail), column_lines(columns, 1, tail))
        }),
{
    reveal_strlit("    membership_id text PRIMARY KEY,\n");
    reveal_strlit("    ");
    reveal_strlit("membership_id");
    reveal_strlit(" ");
    reveal_strlit("text");
    reveal_strlit(" PRIMARY KEY");
    reveal_strlit(",\n");
    reveal_with_fuel(spelling::begins, 7);
}

proof fn lemma_organization_memberships_has_organization_id(rest: Words)
    ensures
        "    organization_id text NOT NULL REFERENCES organizations(organization_id),\n"@.len() == 77,
        ({
            let definition = organization_memberships_definition();
            let columns = definition->Create_columns;
            let tail = definition.closing(rest);
            spelling::begins("    organization_id text NOT NULL REFERENCES organizations(organization_id),\n"@, 0, column_lines(columns, 1, tail), column_lines(columns, 2, tail))
        }),
{
    reveal_strlit("    organization_id text NOT NULL REFERENCES organizations(organization_id),\n");
    reveal_strlit("    ");
    reveal_strlit("organization_id");
    reveal_strlit(" ");
    reveal_strlit("text");
    reveal_strlit(" NOT NULL");
    reveal_strlit(" REFERENCES ");
    reveal_strlit("organizations");
    reveal_strlit("(");
    reveal_strlit(")");
    reveal_strlit(",\n");
    reveal_with_fuel(spelling::begins, 12);
}

proof fn lemma_organization_memberships_has_subject(rest: Words)
    ensures
        "    subject text NOT NULL,\n"@.len() == 27,
        ({
            let definition = organization_memberships_definition();
            let columns = definition->Create_columns;
            let tail = definition.closing(rest);
            spelling::begins("    subject text NOT NULL,\n"@, 0, column_lines(columns, 2, tail), column_lines(columns, 3, tail))
        }),
{
    reveal_strlit("    subject text NOT NULL,\n");
    reveal_strlit("    ");
    reveal_strlit("subject");
    reveal_strlit(" ");
    reveal_strlit("text");
    reveal_strlit(" NOT NULL");
    reveal_strlit(",\n");
    reveal_with_fuel(spelling::begins, 7);
}

proof fn lemma_organization_memberships_has_role_id(rest: Words)
    ensures
        "    role_id text NOT NULL REFERENCES organization_roles(role_id),\n"@.len() == 66,
        ({
            let definition = organization_memberships_definition();
            let columns = definition->Create_columns;
            let tail = definition.closing(rest);
            spelling::begins("    role_id text NOT NULL REFERENCES organization_roles(role_id),\n"@, 0, column_lines(columns, 3, tail), column_lines(columns, 4, tail))
        }),
{
    reveal_strlit("    role_id text NOT NULL REFERENCES organization_roles(role_id),\n");
    reveal_strlit("    ");
    reveal_strlit("role_id");
    reveal_strlit(" ");
    reveal_strlit("text");
    reveal_strlit(" NOT NULL");
    reveal_strlit(" REFERENCES ");
    reveal_strlit("organization_roles");
    reveal_strlit("(");
    reveal_strlit(")");
    reveal_strlit(",\n");
    reveal_with_fuel(spelling::begins, 12);
}

proof fn lemma_organization_memberships_has_revision(rest: Words)
    ensures
        "    revision bigint NOT NULL DEFAULT 1,\n"@.len() == 40,
        ({
            let definition = organization_memberships_definition();
            let columns = definition->Create_columns;
            let tail = definition.closing(rest);
            spelling::begins("    revision bigint NOT NULL DEFAULT 1,\n"@, 0, column_lines(columns, 4, tail), column_lines(columns, 5, tail))
        }),
{
    reveal_strlit("    revision bigint NOT NULL DEFAULT 1,\n");
    reveal_strlit("    ");
    reveal_strlit("revision");
    reveal_strlit(" ");
    reveal_strlit("bigint");
    reveal_strlit(" NOT NULL");
    reveal_strlit(" DEFAULT ");
    reveal_strlit("1");
    reveal_strlit(",\n");
    reveal_with_fuel(spelling::begins, 9);
}

proof fn lemma_organization_memberships_has_removed_at(rest: Words)
    ensures
        "    removed_at timestamptz,\n"@.len() == 28,
        ({
            let definition = organization_memberships_definition();
            let columns = definition->Create_columns;
            let tail = definition.closing(rest);
            spelling::begins("    removed_at timestamptz,\n"@, 0, column_lines(columns, 5, tail), column_lines(columns, 6, tail))
        }),
{
    reveal_strlit("    removed_at timestamptz,\n");
    reveal_strlit("    ");
    reveal_strlit("removed_at");
    reveal_strlit(" ");
    reveal_strlit("timestamptz");
    reveal_strlit(",\n");
    reveal_with_fuel(spelling::begins, 6);
}

proof fn lemma_organization_memberships_has_created_at(rest: Words)
    ensures
        "    created_at timestamptz NOT NULL DEFAULT transaction_timestamp(),\n"@.len() == 69,
        ({
            let definition = organization_memberships_definition();
            let columns = definition->Create_columns;
            let tail = definition.closing(rest);
            spelling::begins("    created_at timestamptz NOT NULL DEFAULT transaction_timestamp(),\n"@, 0, column_lines(columns, 6, tail), column_lines(columns, 7, tail))
        }),
{
    reveal_strlit("    created_at timestamptz NOT NULL DEFAULT transaction_timestamp(),\n");
    reveal_strlit("    ");
    reveal_strlit("created_at");
    reveal_strlit(" ");
    reveal_strlit("timestamptz");
    reveal_strlit(" NOT NULL");
    reveal_strlit(" DEFAULT ");
    reveal_strlit("transaction_timestamp()");
    reveal_strlit(",\n");
    reveal_with_fuel(spelling::begins, 9);
}

proof fn lemma_organization_memberships_has_updated_at(rest: Words)
    ensures
        "    updated_at timestamptz NOT NULL DEFAULT transaction_timestamp()"@.len() == 67,
        ({
            let definition = organization_memberships_definition();
            let columns = definition->Create_columns;
            let tail = definition.closing(rest);
            spelling::begins("    updated_at timestamptz NOT NULL DEFAULT transaction_timestamp()"@, 0, column_lines(columns, 7, tail), tail)
        }),
{
    reveal_strlit("    updated_at timestamptz NOT NULL DEFAULT transaction_timestamp()");
    reveal_strlit("    ");
    reveal_strlit("updated_at");
    reveal_strlit(" ");
    reveal_strlit("timestamptz");
    reveal_strlit(" NOT NULL");
    reveal_strlit(" DEFAULT ");
    reveal_strlit("transaction_timestamp()");
    reveal_with_fuel(spelling::begins, 8);
}

proof fn lemma_organization_memberships_closes(rest: Words)
    ensures
        "\n);\n"@.len() == 4,
        ({
            let definition = organization_memberships_definition();
            let columns = definition->Create_columns;
            let tail = definition.closing(rest);
            spelling::begins("\n);\n"@, 0, tail, rest)
        }),
{
    reveal_strlit("\n);\n");
    reveal_with_fuel(spelling::begins, 2);
}

proof fn lemma_organization_memberships_is_read(rest: Words)
    requires
        spelling::spells(schema::CREATE_ORGANIZATIONS_SQL@, 1104, rest),
    ensures
        spelling::spells(schema::CREATE_ORGANIZATIONS_SQL@, 650, organization_memberships_definition().words(rest)),
{
    lemma_first_lines();
    let text = schema::CREATE_ORGANIZATIONS_SQL@;
    let definition = organization_memberships_definition();
    let columns = definition->Create_columns;
    let tail = definition.closing(rest);
    lemma_organization_memberships_closes(rest);
    spelling::lemma_begins("\n);\n"@, 0, tail, rest, text, 1100);
    lemma_organization_memberships_has_updated_at(rest);
    spelling::lemma_begins("    updated_at timestamptz NOT NULL DEFAULT transaction_timestamp()"@, 0, column_lines(columns, 7, tail), tail, text, 1033);
    lemma_organization_memberships_has_created_at(rest);
    spelling::lemma_begins("    created_at timestamptz NOT NULL DEFAULT transaction_timestamp(),\n"@, 0, column_lines(columns, 6, tail), column_lines(columns, 7, tail), text, 964);
    lemma_organization_memberships_has_removed_at(rest);
    spelling::lemma_begins("    removed_at timestamptz,\n"@, 0, column_lines(columns, 5, tail), column_lines(columns, 6, tail), text, 936);
    lemma_organization_memberships_has_revision(rest);
    spelling::lemma_begins("    revision bigint NOT NULL DEFAULT 1,\n"@, 0, column_lines(columns, 4, tail), column_lines(columns, 5, tail), text, 896);
    lemma_organization_memberships_has_role_id(rest);
    spelling::lemma_begins("    role_id text NOT NULL REFERENCES organization_roles(role_id),\n"@, 0, column_lines(columns, 3, tail), column_lines(columns, 4, tail), text, 830);
    lemma_organization_memberships_has_subject(rest);
    spelling::lemma_begins("    subject text NOT NULL,\n"@, 0, column_lines(columns, 2, tail), column_lines(columns, 3, tail), text, 803);
    lemma_organization_memberships_has_organization_id(rest);
    spelling::lemma_begins("    organization_id text NOT NULL REFERENCES organizations(organization_id),\n"@, 0, column_lines(columns, 1, tail), column_lines(columns, 2, tail), text, 726);
    lemma_organization_memberships_has_membership_id(rest);
    spelling::lemma_begins("    membership_id text PRIMARY KEY,\n"@, 0, column_lines(columns, 0, tail), column_lines(columns, 1, tail), text, 690);
    lemma_organization_memberships_opens(rest);
    spelling::lemma_begins("CREATE TABLE organization_memberships (\n"@, 0, organization_memberships_definition().words(rest), column_lines(columns, 0, tail), text, 650);
}

proof fn lemma_organization_memberships_active_subject_key_is_read(rest: Words)
    requires
        spelling::spells(schema::CREATE_ORGANIZATIONS_SQL@, 1253, rest),
    ensures
        spelling::spells(schema::CREATE_ORGANIZATIONS_SQL@, 1104, organization_memberships_active_subject_key_definition().words(rest)),
{
    lemma_first_lines();
    let text = schema::CREATE_ORGANIZATIONS_SQL@;
    let definition = organization_memberships_active_subject_key_definition();
    assert(spelling::begins("CREATE UNIQUE INDEX organization_memberships_active_subject_key\n    ON organization_memberships (organization_id, subject) WHERE removed_at IS NULL;\n"@, 0, definition.words(rest), rest)) by {
        reveal_strlit("CREATE UNIQUE INDEX organization_memberships_active_subject_key\n    ON organization_memberships (organization_id, subject) WHERE removed_at IS NULL;\n");
        reveal_strlit("CREATE UNIQUE INDEX ");
        reveal_strlit("organization_memberships_active_subject_key");
        reveal_strlit("\n    ON ");
        reveal_strlit("organization_memberships");
        reveal_strlit(" (");
        reveal_strlit("organization_id");
        reveal_strlit("subject");
        reveal_strlit(", ");
        reveal_strlit(") WHERE ");
        reveal_strlit("removed_at");
        reveal_strlit(" IS NULL;\n");
        reveal_with_fuel(listed_words, 3);
        reveal_with_fuel(spelling::begins, 12);
    }
    reveal_strlit("CREATE UNIQUE INDEX organization_memberships_active_subject_key\n    ON organization_memberships (organization_id, subject) WHERE removed_at IS NULL;\n");
    spelling::lemma_begins("CREATE UNIQUE INDEX organization_memberships_active_subject_key\n    ON organization_memberships (organization_id, subject) WHERE removed_at IS NULL;\n"@, 0, definition.words(rest), rest, text, 1104);
}

proof fn lemma_first_reads()
    ensures
        spelling::spells(schema::CREATE_ORGANIZATIONS_SQL@, 0, definition_words(first_definitions(), 0, Words::End)),
{
    let definitions = first_definitions();
    lemma_first_lines();
    reveal_with_fuel(definition_words, 6);
    lemma_organization_memberships_active_subject_key_is_read(definition_words(definitions, 5, Words::End));
    lemma_organization_memberships_is_read(definition_words(definitions, 4, Words::End));
    lemma_organization_roles_is_read(definition_words(definitions, 3, Words::End));
    lemma_organizations_active_slug_key_is_read(definition_words(definitions, 2, Words::End));
    lemma_organizations_is_read(definition_words(definitions, 1, Words::End));
}

/// How the table `organization_creation_requests` is made.
pub open spec fn organization_creation_requests_definition() -> Definition {
    Definition::Create {
        table: Table::CreationRequests,
        columns: seq![
            plain(Column::CallerInstance, Kind::Text, Demand::Filled, None),
            plain(Column::IdempotencyKey, Kind::Text, Demand::Filled, None),
            plain(Column::Name, Kind::Text, Demand::Filled, None),
            plain(Column::Slug, Kind::Text, Demand::Filled, None),
            plain(Column::OwnerSubject, Kind::Text, Demand::Filled, None),
            ColumnDefinition {
                column: Column::OrganizationId,
                kind: Kind::Text,
                demand: Demand::Filled,
                reference: Some(
                    Reference {
                        table: Table::Organizations,
                        column: Column::OrganizationId,
                        deferred: true,
                    },
                ),
                default: None,
            },
            ColumnDefinition {
                column: Column::OwnerMembershipId,
                kind: Kind::Text,
                demand: Demand::Filled,
                reference: Some(
                    Reference {
                        table: Table::Memberships,
                        column: Column::MembershipId,
                        deferred: true,
                    },
                ),
                default: None,
            },
            plain(Column::CreatedAt, Kind::Moment, Demand::Filled, Some(Term::Now)),
        ],
        key: seq![Column::CallerInstance, Column::IdempotencyKey],
    }
}

/// How the table `organization_membership_commands` is made.
pub open spec fn organization_membership_commands_definition() -> Definition {
    Definition::Create {
        table: Table::MembershipCommands,
        columns: seq![
            plain(Column::CallerInstance, Kind::Text, Demand::Filled, None),
            plain(Column::IdempotencyKey, Kind::Text, Demand::Filled, None),
            plain(Column::Operation, Kind::Text, Demand::Filled, None),
            plain(Column::OrganizationId, Kind::Text, Demand::Filled, None),
            plain(Column::Subject, Kind::Text, Demand::Filled, None),
            ColumnDefinition {
                column: Column::MembershipId,
                kind: Kind::Text,
                demand: Demand::Free,
                reference: Some(
                    Reference {
                        table: Table::Memberships,
                        column: Column::MembershipId,
                        deferred: false,
                    },
                ),
                default: None,
            },
            plain(Column::ResultRevision, Kind::Whole, Demand::Free, None),
            plain(Column::Changed, Kind::Flag, Demand::Free, None),
            plain(Column::CreatedAt, Kind::Moment, Demand::Filled, Some(Term::Now)),
            plain(Column::CompletedAt, Kind::Moment, Demand::Free, None),
        ],
        key: seq![Column::CallerInstance, Column::IdempotencyKey],
    }
}

/// What the last migration makes.
pub open spec fn receipt_definitions() -> Seq<Definition> {
    seq![
        organization_creation_requests_definition(),
        organization_membership_commands_definition(),
    ]
}

/// Where the lines of the text stand.
#[verifier::rlimit(100)]
proof fn lemma_receipt_lines()
    ensures
        schema::ADD_CREATION_IDEMPOTENCY_SQL@.len() == 1049,
        spelling::is_at(schema::ADD_CREATION_IDEMPOTENCY_SQL@, 0, "CREATE TABLE organization_creation_requests (\n"@),
        spelling::is_at(schema::ADD_CREATION_IDEMPOTENCY_SQL@, 46, "    caller_instance text NOT NULL,\n"@),
        spelling::is_at(schema::ADD_CREATION_IDEMPOTENCY_SQL@, 81, "    idempotency_key text NOT NULL,\n"@),
        spelling::is_at(schema::ADD_CREATION_IDEMPOTENCY_SQL@, 116, "    name text NOT NULL,\n"@),
        spelling::is_at(schema::ADD_CREATION_IDEMPOTENCY_SQL@, 140, "    slug text NOT NULL,\n"@),
        spelling::is_at(schema::ADD_CREATION_IDEMPOTENCY_SQL@, 164, "    owner_subject text NOT NULL,\n"@),
        spelling::is_at(schema::ADD_CREATION_IDEMPOTENCY_SQL@, 197, "    organization_id text NOT NULL\n        REFERENCES organizations(organization_id) DEFERRABLE INITIALLY DEFERRED,\n"@),
        spelling::is_at(schema::ADD_CREATION_IDEMPOTENCY_SQL@, 312, "    owner_membership_id text NOT NULL\n        REFERENCES organization_memberships(membership_id) DEFERRABLE INITIALLY DEFERRED,\n"@),
        spelling::is_at(schema::ADD_CREATION_IDEMPOTENCY_SQL@, 440, "    created_at timestamptz NOT NULL DEFAULT transaction_timestamp()"@),
        spelling::is_at(schema::ADD_CREATION_IDEMPOTENCY_SQL@, 507, ",\n    PRIMARY KEY (caller_instance, idempotency_key)\n);\n"@),
        spelling::is_at(schema::ADD_CREATION_IDEMPOTENCY_SQL@, 563, "CREATE TABLE organization_membership_commands (\n"@),
        spelling::is_at(schema::ADD_CREATION_IDEMPOTENCY_SQL@, 611, "    caller_instance text NOT NULL,\n"@),
        spelling::is_at(schema::ADD_CREATION_IDEMPOTENCY_SQL@, 646, "    idempotency_key text NOT NULL,\n"@),
        spelling::is_at(schema::ADD_CREATION_IDEMPOTENCY_SQL@, 681, "    operation text NOT NULL,\n"@),
        spelling::is_at(schema::ADD_CREATION_IDEMPOTENCY_SQL@, 710, "    organization_id text NOT NULL,\n"@),
        spelling::is_at(schema::ADD_CREATION_IDEMPOTENCY_SQL@, 745, "    subject text NOT NULL,\n"@),
        spelling::is_at(schema::ADD_CREATION_IDEMPOTENCY_SQL@, 772, "    membership_id text REFERENCES organization_memberships(membership_id),\n"@),
        spelling::is_at(schema::ADD_CREATION_IDEMPOTENCY_SQL@, 847, "    result_revision bigint,\n"@),
        spelling::is_at(schema::ADD_CREATION_IDEMPOTENCY_SQL@, 875, "    changed boolean,\n"@),
        spelling::is_at(schema::ADD_CREATION_IDEMPOTENCY_SQL@, 896, "    created_at timestamptz NOT NULL DEFAULT transaction_timestamp(),\n"@),
        spelling::is_at(schema::ADD_CREATION_IDEMPOTENCY_SQL@, 965, "    completed_at timestamptz"@),
        spelling::is_at(schema::ADD_CREATION_IDEMPOTENCY_SQL@, 993, ",\n    PRIMARY KEY (caller_instance, idempotency_key)\n);\n"@),
{
    reveal_strlit("CREATE TABLE organization_creation_requests (
    caller_instance text NOT NULL,
    idempotency_key text NOT NULL,
    name text NOT NULL,
    slug text NOT NULL,
    owner_subject text NOT NULL,
    organization_id text NOT NULL
        REFERENCES organizations(organization_id) DEFERRABLE INITIALLY DEFERRED,
    owner_membership_id text NOT NULL
        REFERENCES organization_memberships(membership_id) DEFERRABLE INITIALLY DEFERRED,
    created_at timestamptz NOT NULL DEFAULT transaction_timestamp(),
    PRIMARY KEY (caller_instance, idempotency_key)
);
CREATE TABLE organization_membership_commands (
    caller_instance text NOT NULL,
    idempotency_key text NOT NULL,
    operation text NOT NULL,
    organization_id text NOT NULL,
    subject text NOT NULL,
    membership_id text REFERENCES organization_memberships(membership_id),
    result_revision bigint,
    changed boolean,
    created_at timestamptz NOT NULL DEFAULT transaction_timestamp(),
    completed_at timestamptz,
    PRIMARY KEY (caller_instance, idempotency_key)
);
");
    reveal_strlit("CREATE TABLE organization_creation_requests (\n");
    reveal_strlit("    caller_instance text NOT NULL,\n");
    reveal_strlit("    idempotency_key text NOT NULL,\n");
    reveal_strlit("    name text NOT NULL,\n");
    reveal_strlit("    slug text NOT NULL,\n");
    reveal_strlit("    owner_subject text NOT NULL,\n");
    reveal_strlit("    organization_id text NOT NULL\n        REFERENCES organizations(organization_id) DEFERRABLE INITIALLY DEFERRED,\n");
    reveal_strlit("    owner_membership_id text NOT NULL\n        REFERENCES organization_memberships(membership_id) DEFERRABLE INITIALLY DEFERRED,\n");
    reveal_strlit("    created_at timestamptz NOT NULL DEFAULT transaction_timestamp()");
    reveal_strlit(",\n    PRIMARY KEY (caller_instance, idempotency_key)\n);\n");
    reveal_strlit("CREATE TABLE organization_membership_commands (\n");
    reveal_strlit("    operation text NOT NULL,\n");
    reveal_strlit("    organization_id text NOT NULL,\n");
    reveal_strlit("    subject text NOT NULL,\n");
    reveal_strlit("    membership_id text REFERENCES organization_memberships(membership_id),\n");
    reveal_strlit("    result_revision bigint,\n");
    reveal_strlit("    changed boolean,\n");
    reveal_strlit("    created_at timestamptz NOT NULL DEFAULT transaction_timestamp(),\n");
    reveal_strlit("    completed_at timestamptz");
}

proof fn lemma_organization_creation_requests_opens(rest: Words)
    ensures
        "CREATE TABLE organization_creation_requests (\n"@.len() == 46,
        ({
            let definition = organization_creation_requests_definition();
            let columns = definition->Create_columns;
            let tail = definition.closing(rest);
            spelling::begins("CREATE TABLE organization_creation_requests (\n"@, 0, organization_creation_requests_definition().words(rest), column_lines(columns, 0, tail))
        }),
{
    reveal_strlit("CREATE TABLE organization_creation_requests (\n");
    reveal_strlit("CREATE TABLE ");
    reveal_strlit("organization_creation_requests");
    reveal_strlit(" (\n");
    reveal_with_fuel(spelling::begins, 4);
}

proof fn lemma_organization_creation_requests_has_caller_instance(rest: Words)
    ensures
        "    caller_instance text NOT NULL,\n"@.len() == 35,
        ({
            let definition = organization_creation_requests_definition();
            let columns = definition->Create_columns;
            let tail = definition.closing(rest);
            spelling::begins("    caller_instance text NOT NULL,\n"@, 0, column_lines(columns, 0, tail), column_lines(columns, 1, tail))
        }),
{
    reveal_strlit("    caller_instance text NOT NULL,\n");
    reveal_strlit("    ");
    reveal_strlit("caller_instance");
    reveal_strlit(" ");
    reveal_strlit("text");
    reveal_strlit(" NOT NULL");
    reveal_strlit(",\n");
    reveal_with_fuel(spelling::begins, 7);
}

proof fn lemma_organization_creation_requests_has_idempotency_key(rest: Words)
    ensures
        "    idempotency_key text NOT NULL,\n"@.len() == 35,
        ({
            let definition = organization_creation_requests_definition();
            let columns = definition->Create_columns;
            let tail = definition.closing(rest);
            spelling::begins("    idempotency_key text NOT NULL,\n"@, 0, column_lines(columns, 1, tail), column_lines(columns, 2, tail))
        }),
{
    reveal_strlit("    idempotency_key text NOT NULL,\n");
    reveal_strlit("    ");
    reveal_strlit("idempotency_key");
    reveal_strlit(" ");
    reveal_strlit("text");
    reveal_strlit(" NOT NULL");
    reveal_strlit(",\n");
    reveal_with_fuel(spelling::begins, 7);
}

proof fn lemma_organization_creation_requests_has_name(rest: Words)
    ensures
        "    name text NOT NULL,\n"@.len() == 24,
        ({
            let definition = organization_creation_requests_definition();
            let columns = definition->Create_columns;
            let tail = definition.closing(rest);
            spelling::begins("    name text NOT NULL,\n"@, 0, column_lines(columns, 2, tail), column_lines(columns, 3, tail))
        }),
{
    reveal_strlit("    name text NOT NULL,\n");
    reveal_strlit("    ");
    reveal_strlit("name");
    reveal_strlit(" ");
    reveal_strlit("text");
    reveal_strlit(" NOT NULL");
    reveal_strlit(",\n");
    reveal_with_fuel(spelling::begins, 7);
}

proof fn lemma_organization_creation_requests_has_slug(rest: Words)
    ensures
        "    slug text NOT NULL,\n"@.len() == 24,
        ({
            let definition = organization_creation_requests_definition();
            let columns = definition->Create_columns;
            let tail = definition.closing(rest);
            spelling::begins("    slug text NOT NULL,\n"@, 0, column_lines(columns, 3, tail), column_lines(columns, 4, tail))
        }),
{
    reveal_strlit("    slug text NOT NULL,\n");
    reveal_strlit("    ");
    reveal_strlit("slug");
    reveal_strlit(" ");
    reveal_strlit("text");
    reveal_strlit(" NOT NULL");
    reveal_strlit(",\n");
    reveal_with_fuel(spelling::begins, 7);
}

proof fn lemma_organization_creation_requests_has_owner_subject(rest: Words)
    ensures
        "    owner_subject text NOT NULL,\n"@.len() == 33,
        ({
            let definition = organization_creation_requests_definition();
            let columns = definition->Create_columns;
            let tail = definition.closing(rest);
            spelling::begins("    owner_subject text NOT NULL,\n"@, 0, column_lines(columns, 4, tail), column_lines(columns, 5, tail))
        }),
{
    reveal_strlit("    owner_subject text NOT NULL,\n");
    reveal_strlit("    ");
    reveal_strlit("owner_subject");
    reveal_strlit(" ");
    reveal_strlit("text");
    reveal_strlit(" NOT NULL");
    reveal_strlit(",\n");
    reveal_with_fuel(spelling::begins, 7);
}

proof fn lemma_organization_creation_requests_has_organization_id(rest: Words)
    ensures
        "    organization_id text NOT NULL\n        REFERENCES organizations(organization_id) DEFERRABLE INITIALLY DEFERRED,\n"@.len() == 115,
        ({
            let definition = organization_creation_requests_definition();
            let columns = definition->Create_columns;
            let tail = definition.closing(rest);
            spelling::begins("    organization_id text NOT NULL\n        REFERENCES organizations(organization_id) DEFERRABLE INITIALLY DEFERRED,\n"@, 0, column_lines(columns, 5, tail), column_lines(columns, 6, tail))
        }),
{
    reveal_strlit("    organization_id text NOT NULL\n        REFERENCES organizations(organization_id) DEFERRABLE INITIALLY DEFERRED,\n");
    reveal_strlit("    ");
    reveal_strlit("organization_id");
    reveal_strlit(" ");
    reveal_strlit("text");
    reveal_strlit(" NOT NULL");
    reveal_strlit("\n        REFERENCES ");
    reveal_strlit("organizations");
    reveal_strlit("(");
    reveal_strlit(") DEFERRABLE INITIALLY DEFERRED");
    reveal_strlit(",\n");
    reveal_with_fuel(spelling::begins, 12);
}

proof fn lemma_organization_creation_requests_has_owner_membership_id(rest: Words)
    ensures
        "    owner_membership_id text NOT NULL\n        REFERENCES organization_memberships(membership_id) DEFERRABLE INITIALLY DEFERRED,\n"@.len() == 128,
        ({
            let definition = organization_creation_requests_definition();
            let columns = definition->Create_columns;
            let tail = definition.closing(rest);
            spelling::begins("    owner_membership_id text NOT NULL\n        REFERENCES organization_memberships(membership_id) DEFERRABLE INITIALLY DEFERRED,\n"@, 0, column_lines(columns, 6, tail), column_lines(columns, 7, tail))
        }),
{
    reveal_strlit("    owner_membership_id text NOT NULL\n        REFERENCES organization_memberships(membership_id) DEFERRABLE INITIALLY DEFERRED,\n");
    reveal_strlit("    ");
    reveal_strlit("owner_membership_id");
    reveal_strlit(" ");
    reveal_strlit("text");
    reveal_strlit(" NOT NULL");
    reveal_strlit("\n        REFERENCES ");
    reveal_strlit("organization_memberships");
    reveal_strlit("(");
    reveal_strlit("membership_id");
    reveal_strlit(") DEFERRABLE INITIALLY DEFERRED");
    reveal_strlit(",\n");
    reveal_with_fuel(spelling::begins, 12);
}

proof fn lemma_organization_creation_requests_has_created_at(rest: Words)
    ensures
        "    created_at timestamptz NOT NULL DEFAULT transaction_timestamp()"@.len() == 67,
        ({
            let definition = organization_creation_requests_definition();
            let columns = definition->Create_columns;
            let tail = definition.closing(rest);
            spelling::begins("    created_at timestamptz NOT NULL DEFAULT transaction_timestamp()"@, 0, column_lines(columns, 7, tail), tail)
        }),
{
    reveal_strlit("    created_at timestamptz NOT NULL DEFAULT transaction_timestamp()");
    reveal_strlit("    ");
    reveal_strlit("created_at");
    reveal_strlit(" ");
    reveal_strlit("timestamptz");
    reveal_strlit(" NOT NULL");
    reveal_strlit(" DEFAULT ");
    reveal_strlit("transaction_timestamp()");
    reveal_with_fuel(spelling::begins, 8);
}

proof fn lemma_organization_creation_requests_closes(rest: Words)
    ensures
        ",\n    PRIMARY KEY (caller_instance, idempotency_key)\n);\n"@.len() == 56,
        ({
            let definition = organization_creation_requests_definition();
            let columns = definition->Create_columns;
            let tail = definition.closing(rest);
            spelling::begins(",\n    PRIMARY KEY (caller_instance, idempotency_key)\n);\n"@, 0, tail, rest)
        }),
{
    reveal_strlit(",\n    PRIMARY KEY (caller_instance, idempotency_key)\n);\n");
    reveal_strlit(",\n    PRIMARY KEY (");
    reveal_strlit("caller_instance");
    reveal_strlit("idempotency_key");
    reveal_strlit(", ");
    reveal_strlit(")");
    reveal_strlit("\n);\n");
    reveal_with_fuel(listed_words, 3);
    reveal_with_fuel(spelling::begins, 7);
}

proof fn lemma_organization_creation_requests_is_read(rest: Words)
    requires
        spelling::spells(schema::ADD_CREATION_IDEMPOTENCY_SQL@, 563, rest),
    ensures
        spelling::spells(schema::ADD_CREATION_IDEMPOTENCY_SQL@, 0, organization_creation_requests_definition().words(rest)),
{
    lemma_receipt_lines();
    let text = schema::ADD_CREATION_IDEMPOTENCY_SQL@;
    let definition = organization_creation_requests_definition();
    let columns = definition->Create_columns;
    let tail = definition.closing(rest);
    lemma_organization_creation_requests_closes(rest);
    spelling::lemma_begins(",\n    PRIMARY KEY (caller_instance, idempotency_key)\n);\n"@, 0, tail, rest, text, 507);
    lemma_organization_creation_requests_has_created_at(rest);
    spelling::lemma_begins("    created_at timestamptz NOT NULL DEFAULT transaction_timestamp()"@, 0, column_lines(columns, 7, tail), tail, text, 440);
    lemma_organization_creation_requests_has_owner_membership_id(rest);
    spelling::lemma_begins("    owner_membership_id text NOT NULL\n        REFERENCES organization_memberships(membership_id) DEFERRABLE INITIALLY DEFERRED,\n"@, 0, column_lines(columns, 6, tail), column_lines(columns, 7, tail), text, 312);
    lemma_organization_creation_requests_has_organization_id(rest);
    spelling::lemma_begins("    organization_id text NOT NULL\n        REFERENCES organizations(organization_id) DEFERRABLE INITIALLY DEFERRED,\n"@, 0, column_lines(columns, 5, tail), column_lines(columns, 6, tail), text, 197);
    lemma_organization_creation_requests_has_owner_subject(rest);
    spelling::lemma_begins("    owner_subject text NOT NULL,\n"@, 0, column_lines(columns, 4, tail), column_lines(columns, 5, tail), text, 164);
    lemma_organization_creation_requests_has_slug(rest);
    spelling::lemma_begins("    slug text NOT NULL,\n"@, 0, column_lines(columns, 3, tail), column_lines(columns, 4, tail), text, 140);
    lemma_organization_creation_requests_has_name(rest);
    spelling::lemma_begins("    name text NOT NULL,\n"@, 0, column_lines(columns, 2, tail), column_lines(columns, 3, tail), text, 116);
    lemma_organization_creation_requests_has_idempotency_key(rest);
    spelling::lemma_begins("    idempotency_key text NOT NULL,\n"@, 0, column_lines(columns, 1, tail), column_lines(columns, 2, tail), text, 81);
    lemma_organization_creation_requests_has_caller_instance(rest);
    spelling::lemma_begins("    caller_instance text NOT NULL,\n"@, 0, column_lines(columns, 0, tail), column_lines(columns, 1, tail), text, 46);
    lemma_organization_creation_requests_opens(rest);
    spelling::lemma_begins("CREATE TABLE organization_creation_requests (\n"@, 0, organization_creation_requests_definition().words(rest), column_lines(columns, 0, tail), text, 0);
}

proof fn lemma_organization_membership_commands_opens(rest: Words)
    ensures
        "CREATE TABLE organization_membership_commands (\n"@.len() == 48,
        ({
            let definition = organization_membership_commands_definition();
            let columns = definition->Create_columns;
            let tail = definition.closing(rest);
            spelling::begins("CREATE TABLE organization_membership_commands (\n"@, 0, organization_membership_commands_definition().words(rest), column_lines(columns, 0, tail))
        }),
{
    reveal_strlit("CREATE TABLE organization_membership_commands (\n");
    reveal_strlit("CREATE TABLE ");
    reveal_strlit("organization_membership_commands");
    reveal_strlit(" (\n");
    reveal_with_fuel(spelling::begins, 4);
}

proof fn lemma_organization_membership_commands_has_caller_instance(rest: Words)
    ensures
        "    caller_instance text NOT NULL,\n"@.len() == 35,
        ({
            let definition = organization_membership_commands_definition();
            let columns = definition->Create_columns;
            let tail = definition.closing(rest);
            spelling::begins("    caller_instance text NOT NULL,\n"@, 0, column_lines(columns, 0, tail), column_lines(columns, 1, tail))
        }),
{
    reveal_strlit("    caller_instance text NOT NULL,\n");
    reveal_strlit("    ");
    reveal_strlit("caller_instance");
    reveal_strlit(" ");
    reveal_strlit("text");
    reveal_strlit(" NOT NULL");
    reveal_strlit(",\n");
    reveal_with_fuel(spelling::begins, 7);
}

proof fn lemma_organization_membership_commands_has_idempotency_key(rest: Words)
    ensures
        "    idempotency_key text NOT NULL,\n"@.len() == 35,
        ({
            let definition = organization_membership_commands_definition();
            let columns = definition->Create_columns;
            let tail = definition.closing(rest);
            spelling::begins("    idempotency_key text NOT NULL,\n"@, 0, column_lines(columns, 1, tail), column_lines(columns, 2, tail))
        }),
{
    reveal_strlit("    idempotency_key text NOT NULL,\n");
    reveal_strlit("    ");
    reveal_strlit("idempotency_key");
    reveal_strlit(" ");
    reveal_strlit("text");
    reveal_strlit(" NOT NULL");
    reveal_strlit(",\n");
    reveal_with_fuel(spelling::begins, 7);
}

proof fn lemma_organization_membership_commands_has_operation(rest: Words)
    ensures
        "    operation text NOT NULL,\n"@.len() == 29,
        ({
            let definition = organization_membership_commands_definition();
            let columns = definition->Create_columns;
            let tail = definition.closing(rest);
            spelling::begins("    operation text NOT NULL,\n"@, 0, column_lines(columns, 2, tail), column_lines(columns, 3, tail))
        }),
{
    reveal_strlit("    operation text NOT NULL,\n");
    reveal_strlit("    ");
    reveal_strlit("operation");
    reveal_strlit(" ");
    reveal_strlit("text");
    reveal_strlit(" NOT NULL");
    reveal_strlit(",\n");
    reveal_with_fuel(spelling::begins, 7);
}

proof fn lemma_organization_membership_commands_has_organization_id(rest: Words)
    ensures
        "    organization_id text NOT NULL,\n"@.len() == 35,
        ({
            let definition = organization_membership_commands_definition();
            let columns = definition->Create_columns;
            let tail = definition.closing(rest);
            spelling::begins("    organization_id text NOT NULL,\n"@, 0, column_lines(columns, 3, tail), column_lines(columns, 4, tail))
        }),
{
    reveal_strlit("    organization_id text NOT NULL,\n");
    reveal_strlit("    ");
    reveal_strlit("organization_id");
    reveal_strlit(" ");
    reveal_strlit("text");
    reveal_strlit(" NOT NULL");
    reveal_strlit(",\n");
    reveal_with_fuel(spelling::begins, 7);
}

proof fn lemma_organization_membership_commands_has_subject(rest: Words)
    ensures
        "    subject text NOT NULL,\n"@.len() == 27,
        ({
            let definition = organization_membership_commands_definition();
            let columns = definition->Create_columns;
            let tail = definition.closing(rest);
            spelling::begins("    subject text NOT NULL,\n"@, 0, column_lines(columns, 4, tail), column_lines(columns, 5, tail))
        }),
{
    reveal_strlit("    subject text NOT NULL,\n");
    reveal_strlit("    ");
    reveal_strlit("subject");
    reveal_strlit(" ");
    reveal_strlit("text");
    reveal_strlit(" NOT NULL");
    reveal_strlit(",\n");
    reveal_with_fuel(spelling::begins, 7);
}

proof fn lemma_organization_membership_commands_has_membership_id(rest: Words)
    ensures
        "    membership_id text REFERENCES organization_memberships(membership_id),\n"@.len() == 75,
        ({
            let definition = organization_membership_commands_definition();
            let columns = definition->Create_columns;
            let tail = definition.closing(rest);
            spelling::begins("    membership_id text REFERENCES organization_memberships(membership_id),\n"@, 0, column_lines(columns, 5, tail), column_lines(columns, 6, tail))
        }),
{
    reveal_strlit("    membership_id text REFERENCES organization_memberships(membership_id),\n");
    reveal_strlit("    ");
    reveal_strlit("membership_id");
    reveal_strlit(" ");
    reveal_strlit("text");
    reveal_strlit(" REFERENCES ");
    reveal_strlit("organization_memberships");
    reveal_strlit("(");
    reveal_strlit(")");
    reveal_strlit(",\n");
    reveal_with_fuel(spelling::begins, 11);
}

proof fn lemma_organization_membership_commands_has_result_revision(rest: Words)
    ensures
        "    result_revision bigint,\n"@.len() == 28,
        ({
            let definition = organization_membership_commands_definition();
            let columns = definition->Create_columns;
            let tail = definition.closing(rest);
            spelling::begins("    result_revision bigint,\n"@, 0, column_lines(columns, 6, tail), column_lines(columns, 7, tail))
        }),
{
    reveal_strlit("    result_revision bigint,\n");
    reveal_strlit("    ");
    reveal_strlit("result_revision");
    reveal_strlit(" ");
    reveal_strlit("bigint");
    reveal_strlit(",\n");
    reveal_with_fuel(spelling::begins, 6);
}

proof fn lemma_organization_membership_commands_has_changed(rest: Words)
    ensures
        "    changed boolean,\n"@.len() == 21,
        ({
            let definition = organization_membership_commands_definition();
            let columns = definition->Create_columns;
            let tail = definition.closing(rest);
            spelling::begins("    changed boolean,\n"@, 0, column_lines(columns, 7, tail), column_lines(columns, 8, tail))
        }),
{
    reveal_strlit("    changed boolean,\n");
    reveal_strlit("    ");
    reveal_strlit("changed");
    reveal_strlit(" ");
    reveal_strlit("boolean");
    reveal_strlit(",\n");
    reveal_with_fuel(spelling::begins, 6);
}

proof fn lemma_organization_membership_commands_has_created_at(rest: Words)
    ensures
        "    created_at timestamptz NOT NULL DEFAULT transaction_timestamp(),\n"@.len() == 69,
        ({
            let definition = organization_membership_commands_definition();
            let columns = definition->Create_columns;
            let tail = definition.closing(rest);
            spelling::begins("    created_at timestamptz NOT NULL DEFAULT transaction_timestamp(),\n"@, 0, column_lines(columns, 8, tail), column_lines(columns, 9, tail))
        }),
{
    reveal_strlit("    created_at timestamptz NOT NULL DEFAULT transaction_timestamp(),\n");
    reveal_strlit("    ");
    reveal_strlit("created_at");
    reveal_strlit(" ");
    reveal_strlit("timestamptz");
    reveal_strlit(" NOT NULL");
    reveal_strlit(" DEFAULT ");
    reveal_strlit("transaction_timestamp()");
    reveal_strlit(",\n");
    reveal_with_fuel(spelling::begins, 9);
}

proof fn lemma_organization_membership_commands_has_completed_at(rest: Words)
    ensures
        "    completed_at timestamptz"@.len() == 28,
        ({
            let definition = organization_membership_commands_definition();
            let columns = definition->Create_columns;
            let tail = definition.closing(rest);
            spelling::begins("    completed_at timestamptz"@, 0, column_lines(columns, 9, tail), tail)
        }),
{
    reveal_strlit("    completed_at timestamptz");
    reveal_strlit("    ");
    reveal_strlit("completed_at");
    reveal_strlit(" ");
    reveal_strlit("timestamptz");
    reveal_with_fuel(spelling::begins, 5);
}

proof fn lemma_organization_membership_commands_closes(rest: Words)
    ensures
        ",\n    PRIMARY KEY (caller_instance, idempotency_key)\n);\n"@.len() == 56,
        ({
            let definition = organization_membership_commands_definition();
            let columns = definition->Create_columns;
            let tail = definition.closing(rest);
            spelling::begins(",\n    PRIMARY KEY (caller_instance, idempotency_key)\n);\n"@, 0, tail, rest)
        }),
{
    reveal_strlit(",\n    PRIMARY KEY (caller_instance, idempotency_key)\n);\n");
    reveal_strlit(",\n    PRIMARY KEY (");
    reveal_strlit("caller_instance");
    reveal_strlit("idempotency_key");
    reveal_strlit(", ");
    reveal_strlit(")");
    reveal_strlit("\n);\n");
    reveal_with_fuel(listed_words, 3);
    reveal_with_fuel(spelling::begins, 7);
}

proof fn lemma_organization_membership_commands_is_read(rest: Words)
    requires
        spelling::spells(schema::ADD_CREATION_IDEMPOTENCY_SQL@, 1049, rest),
    ensures
        spelling::spells(schema::ADD_CREATION_IDEMPOTENCY_SQL@, 563, organization_membership_commands_definition().words(rest)),
{
    lemma_receipt_lines();
    let text = schema::ADD_CREATION_IDEMPOTENCY_SQL@;
    let definition = organization_membership_commands_definition();
    let columns = definition->Create_columns;
    let tail = definition.closing(rest);
    lemma_organization_membership_commands_closes(rest);
    spelling::lemma_begins(",\n    PRIMARY KEY (caller_instance, idempotency_key)\n);\n"@, 0, tail, rest, text, 993);
    lemma_organization_membership_commands_has_completed_at(rest);
    spelling::lemma_begins("    completed_at timestamptz"@, 0, column_lines(columns, 9, tail), tail, text, 965);
    lemma_organization_membership_commands_has_created_at(rest);
    spelling::lemma_begins("    created_at timestamptz NOT NULL DEFAULT transaction_timestamp(),\n"@, 0, column_lines(columns, 8, tail), column_lines(columns, 9, tail), text, 896);
    lemma_organization_membership_commands_has_changed(rest);
    spelling::lemma_begins("    changed boolean,\n"@, 0, column_lines(columns, 7, tail), column_lines(columns, 8, tail), text, 875);
    lemma_organization_membership_commands_has_result_revision(rest);
    spelling::lemma_begins("    result_revision bigint,\n"@, 0, column_lines(columns, 6, tail), column_lines(columns, 7, tail), text, 847);
    lemma_organization_membership_commands_has_membership_id(rest);
    spelling::lemma_begins("    membership_id text REFERENCES organization_memberships(membership_id),\n"@, 0, column_lines(columns, 5, tail), column_lines(columns, 6, tail), text, 772);
    lemma_organization_membership_commands_has_subject(rest);
    spelling::lemma_begins("    subject text NOT NULL,\n"@, 0, column_lines(columns, 4, tail), column_lines(columns, 5, tail), text, 745);
    lemma_organization_membership_commands_has_organization_id(rest);
    spelling::lemma_begins("    organization_id text NOT NULL,\n"@, 0, column_lines(columns, 3, tail), column_lines(columns, 4, tail), text, 710);
    lemma_organization_membership_commands_has_operation(rest);
    spelling::lemma_begins("    operation text NOT NULL,\n"@, 0, column_lines(columns, 2, tail), column_lines(columns, 3, tail), text, 681);
    lemma_organization_membership_commands_has_idempotency_key(rest);
    spelling::lemma_begins("    idempotency_key text NOT NULL,\n"@, 0, column_lines(columns, 1, tail), column_lines(columns, 2, tail), text, 646);
    lemma_organization_membership_commands_has_caller_instance(rest);
    spelling::lemma_begins("    caller_instance text NOT NULL,\n"@, 0, column_lines(columns, 0, tail), column_lines(columns, 1, tail), text, 611);
    lemma_organization_membership_commands_opens(rest);
    spelling::lemma_begins("CREATE TABLE organization_membership_commands (\n"@, 0, organization_membership_commands_definition().words(rest), column_lines(columns, 0, tail), text, 563);
}

proof fn lemma_receipt_reads()
    ensures
        spelling::spells(schema::ADD_CREATION_IDEMPOTENCY_SQL@, 0, definition_words(receipt_definitions(), 0, Words::End)),
{
    let definitions = receipt_definitions();
    lemma_receipt_lines();
    reveal_with_fuel(definition_words, 3);
    lemma_organization_membership_commands_is_read(definition_words(definitions, 2, Words::End));
    lemma_organization_creation_requests_is_read(definition_words(definitions, 1, Words::End));
}

/// The names that PostgreSQL gives to the constraints of columns.
proof fn lemma_constraint_names()
    ensures
        "organizations"@ + "_pkey"@ == "organizations_pkey"@,
        "organization_roles"@ + "_pkey"@ == "organization_roles_pkey"@,
        "organization_memberships"@ + "_pkey"@ == "organization_memberships_pkey"@,
        "organization_roles"@ + "_"@ + "organization_id"@ + "_fkey"@
            == "organization_roles_organization_id_fkey"@,
        "organization_memberships"@ + "_"@ + "organization_id"@ + "_fkey"@
            == "organization_memberships_organization_id_fkey"@,
        "organization_memberships"@ + "_"@ + "role_id"@ + "_fkey"@
            == "organization_memberships_role_id_fkey"@,
{
    reveal_strlit("_");
    reveal_strlit("_pkey");
    reveal_strlit("_fkey");
    reveal_strlit("organizations");
    reveal_strlit("organization_roles");
    reveal_strlit("organization_memberships");
    reveal_strlit("organization_id");
    reveal_strlit("role_id");
    reveal_strlit("organizations_pkey");
    reveal_strlit("organization_roles_pkey");
    reveal_strlit("organization_memberships_pkey");
    reveal_strlit("organization_roles_organization_id_fkey");
    reveal_strlit("organization_memberships_organization_id_fkey");
    reveal_strlit("organization_memberships_role_id_fkey");
}

proof fn lemma_organizations_demand()
    ensures
        organizations_definition().demands(Table::Organizations) == seq![
            Constraint::Unique {
                name: "organizations_pkey"@,
                columns: seq![Column::OrganizationId],
                alive: None,
            },
        ],
{
    lemma_constraint_names();
    reveal_with_fuel(columns_demand, 8);
}

proof fn lemma_roles_demand()
    ensures
        organization_roles_definition().demands(Table::Roles) == seq![
            Constraint::Unique {
                name: "organization_roles_pkey"@,
                columns: seq![Column::RoleId],
                alive: None,
            },
            Constraint::References {
                name: "organization_roles_organization_id_fkey"@,
                column: Column::OrganizationId,
                table: Table::Organizations,
            },
        ],
{
    lemma_constraint_names();
    reveal_with_fuel(columns_demand, 6);
}

proof fn lemma_memberships_demand()
    ensures
        organization_memberships_definition().demands(Table::Memberships) == seq![
            Constraint::Unique {
                name: "organization_memberships_pkey"@,
                columns: seq![Column::MembershipId],
                alive: None,
            },
            Constraint::References {
                name: "organization_memberships_organization_id_fkey"@,
                column: Column::OrganizationId,
                table: Table::Organizations,
            },
            Constraint::References {
                name: "organization_memberships_role_id_fkey"@,
                column: Column::RoleId,
                table: Table::Roles,
            },
        ],
{
    lemma_constraint_names();
    reveal_with_fuel(columns_demand, 9);
}

/// The first migration, read as SQL, demands of the Module's tables what the
/// statements meet there, in the same order, and gives their columns the same
/// defaults.
pub proof fn law_module_tables_are_defined(table: Table)
    ensures
        spelling::spells(
            schema::module_history()[0].sql@,
            0,
            definition_words(first_definitions(), 0, Words::End),
        ),
        (tables::module_schema().constraints)(table) == definitions_demand(
            first_definitions(),
            table,
            first_definitions().len() as int,
        ),
        forall|i: int|
            0 <= i < first_definitions().len() ==> (#[trigger] first_definitions()[i]).defaults_are(
                tables::module_schema(),
            ),
{
    lemma_first_reads();
    lemma_organizations_demand();
    lemma_roles_demand();
    lemma_memberships_demand();
    reveal_with_fuel(definitions_demand, 6);
    assert((tables::module_schema().constraints)(table) =~= definitions_demand(
        first_definitions(),
        table,
        5,
    ));
}

/// Those of the constraints from the `k`th on that do not speak of the column.
pub open spec fn without_column(
    constraints: Seq<Constraint>,
    column: Column,
    k: int,
) -> Seq<Constraint>
    decreases constraints.len() - k,
{
    if k >= constraints.len() {
        Seq::empty()
    } else {
        let later = without_column(constraints, column, k + 1);
        let speaks = match constraints[k] {
            Constraint::Unique { columns, .. } => columns.contains(column),
            Constraint::References { column: own, .. } => own == column,
        };
        if speaks {
            later
        } else {
            seq![constraints[k]] + later
        }
    }
}

/// Once the roles have left, the Plugin's Organizations and memberships are
/// held to what the first migration demands, but for the role of a membership.
pub proof fn law_plugin_tables_keep_their_demands(table: Table)
    requires
        table is Organizations || table is Memberships,
    ensures
        (plugin_tables::plugin_schema().constraints)(table) == without_column(
            definitions_demand(first_definitions(), table, first_definitions().len() as int),
            Column::RoleId,
            0,
        ),
        organizations_definition().defaults_are(plugin_tables::plugin_schema()),
        organization_memberships_definition().defaults_are(plugin_tables::plugin_schema()),
{
    law_module_tables_are_defined(table);
    reveal_with_fuel(without_column, 5);
    let constraints = (tables::module_schema().constraints)(table);
    assert(without_column(constraints, Column::RoleId, 0) =~= (
    plugin_tables::plugin_schema().constraints)(table));
}

/// Whether the command inserts into the table that is defined, unless there is
/// a row with the same key.
pub open spec fn is_reserved_in(command: Command, definition: Definition) -> bool {
    match (command, definition) {
        (
            Command::Insert { table, unless, .. },
            Definition::Create { table: own, key, .. },
        ) => own == table && key == unless && key.len() > 0,
        _ => false,
    }
}

/// The last migration, read as SQL, gives every table of receipts the key under
/// which the statements that reserve a receipt find that there is one.
pub proof fn law_receipts_are_reserved_under_their_key(statement: Statement<Seq<char>>)
    requires
        statement is ReserveCreation || statement is ReserveCommand,
    ensures
        spelling::spells(
            schema::plugin_history()[2].sql@,
            0,
            definition_words(receipt_definitions(), 0, Words::End),
        ),
        sql::reads_as(statement.text(), statement.command()),
        exists|i: int|
            0 <= i < receipt_definitions().len() && is_reserved_in(
                statement.command(),
                #[trigger] receipt_definitions()[i],
            ),
        forall|i: int|
            0 <= i < receipt_definitions().len() ==> (
            #[trigger] receipt_definitions()[i]).defaults_are(plugin_tables::plugin_schema()),
{
    lemma_receipt_reads();
    reading::lemma_statement_reads(statement);
    let definitions = receipt_definitions();
    assert(definitions[0] == organization_creation_requests_definition());
    assert(definitions[1] == organization_membership_commands_definition());
    assert(statement.command()->unless =~= definitions[0]->key);
    assert(statement.command()->unless =~= definitions[1]->key);
    assert(is_reserved_in(statement.command(), definitions[0]) || is_reserved_in(
        statement.command(),
        definitions[1],
    ));
}

} // verus!
