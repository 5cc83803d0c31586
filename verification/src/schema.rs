//! The owned PostgreSQL schema: its name, its migrations and its plan.

use lenso_postgres_kit::{Migration, PlanError, SchemaPlan};
use vstd::prelude::*;

use crate::names;
use crate::text;

verus! {

/// Organizations, roles and role-bound memberships.
pub const CREATE_ORGANIZATIONS_SQL: &'static str = "CREATE TABLE organizations (
    organization_id text PRIMARY KEY,
    name text NOT NULL,
    slug text NOT NULL,
    revision bigint NOT NULL DEFAULT 1,
    archived_at timestamptz,
    created_at timestamptz NOT NULL DEFAULT transaction_timestamp(),
    updated_at timestamptz NOT NULL DEFAULT transaction_timestamp()
);
CREATE UNIQUE INDEX organizations_active_slug_key
    ON organizations (slug) WHERE archived_at IS NULL;
CREATE TABLE organization_roles (
    role_id text PRIMARY KEY,
    organization_id text NOT NULL REFERENCES organizations(organization_id),
    name text NOT NULL,
    permissions text[] NOT NULL,
    system_key text
);
CREATE TABLE organization_memberships (
    membership_id text PRIMARY KEY,
    organization_id text NOT NULL REFERENCES organizations(organization_id),
    subject text NOT NULL,
    role_id text NOT NULL REFERENCES organization_roles(role_id),
    revision bigint NOT NULL DEFAULT 1,
    removed_at timestamptz,
    created_at timestamptz NOT NULL DEFAULT transaction_timestamp(),
    updated_at timestamptz NOT NULL DEFAULT transaction_timestamp()
);
CREATE UNIQUE INDEX organization_memberships_active_subject_key
    ON organization_memberships (organization_id, subject) WHERE removed_at IS NULL;
";

/// Ownership becomes a fact of the membership, and roles leave. The change is
/// refused before anything is dropped if it would leave an active Organization
/// without an active owner.
pub const SEPARATE_ACCESS_CONTROL_SQL: &'static str = "ALTER TABLE organization_memberships ADD COLUMN is_owner boolean NOT NULL DEFAULT false;
UPDATE organization_memberships AS membership
    SET is_owner = true
    FROM organization_roles AS role
    WHERE role.role_id = membership.role_id
        AND role.organization_id = membership.organization_id
        AND role.system_key = 'owner';
DO $$
BEGIN
    IF EXISTS (
        SELECT 1 FROM organizations AS organization
        WHERE organization.archived_at IS NULL AND NOT EXISTS (
            SELECT 1 FROM organization_memberships AS membership
            WHERE membership.organization_id = organization.organization_id
                AND membership.removed_at IS NULL
                AND membership.is_owner
        )
    ) THEN
        RAISE EXCEPTION 'active organization has no active owner';
    END IF;
END
$$;
ALTER TABLE organization_memberships DROP COLUMN role_id;
DROP TABLE organization_roles;
";

/// Receipts of creations and of membership commands, kept for each caller.
pub const ADD_CREATION_IDEMPOTENCY_SQL: &'static str = "CREATE TABLE organization_creation_requests (
    caller_instance text NOT NULL,
    idempotency_key text NOT NULL,
    name text NOT NULL,
    slug text NOT NULL,
    owner_subject text NOT NULL,
    organization_id text NOT NULL
        REFERENCES organizations(organization_id) DEFERRABLE INITIALLY DEFERRED,
    owner_membership_id text NOT NULL
        REFERENCES organization_memberships(membership_id) DEFERRABLE INITIALLY DEFERRED,
    created_at timestamptz NOT NULL DEFAULT transaction_timestamp(),
    PRIMARY KEY (caller_instance, idempotency_key)
);
CREATE TABLE organization_membership_commands (
    caller_instance text NOT NULL,
    idempotency_key text NOT NULL,
    operation text NOT NULL,
    organization_id text NOT NULL,
    subject text NOT NULL,
    membership_id text REFERENCES organization_memberships(membership_id),
    result_revision bigint,
    changed boolean,
    created_at timestamptz NOT NULL DEFAULT transaction_timestamp(),
    completed_at timestamptz,
    PRIMARY KEY (caller_instance, idempotency_key)
);
";

/// One step of the schema's history.
#[derive(Clone, Copy, Debug)]
pub struct MigrationSource {
    pub version: u64,
    pub name: &'static str,
    pub sql: &'static str,
}

/// A plan that was accepted.
#[verifier::external_type_specification]
#[verifier::external_body]
pub struct AcceptedPlan(SchemaPlan);

/// The kit's reason for refusing a plan.
#[verifier::external_type_specification]
#[verifier::external_body]
pub struct RefusedPlan(PlanError);

/// The schema that a plan is for.
pub uninterp spec fn plan_schema(plan: SchemaPlan) -> Seq<char>;

/// The migrations that a plan holds.
pub uninterp spec fn plan_migrations(plan: SchemaPlan) -> Seq<MigrationSource>;

/// A name that a Plugin may own: at most 63 lower-case letters, digits and
/// underscores, a letter first, and none of the names that PostgreSQL keeps.
pub open spec fn is_schema_name(schema: Seq<char>) -> bool {
    &&& 0 < schema.len() <= 63
    &&& names::ascii_lowercase(schema[0])
    &&& forall|i: int|
        0 <= i < schema.len() ==> names::ascii_lowercase(#[trigger] schema[i])
            || names::ascii_digit(schema[i]) || schema[i] == '_'
    &&& schema != "public"@
    &&& schema != "information_schema"@
    &&& !"pg_"@.is_prefix_of(schema)
}

/// A name that a migration may have.
pub open spec fn is_migration_name(name: Seq<char>) -> bool {
    &&& 0 < name.len() <= 128
    &&& names::ascii_lowercase(name[0])
    &&& forall|i: int|
        0 <= i < name.len() ==> names::ascii_lowercase(#[trigger] name[i]) || names::ascii_digit(
            name[i],
        ) || name[i] == '_' || name[i] == '-'
}

/// A history that a plan may hold: not empty, versions from one on without a
/// gap, every name a migration name and every SQL text more than white space.
pub open spec fn is_history(migrations: Seq<MigrationSource>) -> bool {
    &&& migrations.len() > 0
    &&& forall|i: int|
        0 <= i < migrations.len() ==> {
            let migration = #[trigger] migrations[i];
            &&& migration.version == i + 1
            &&& is_migration_name(migration.name@)
            &&& text::trimmed(migration.sql@).len() > 0
        }
}

/// Makes the plan with `SchemaPlan::new` of the PostgreSQL kit. It accepts
/// exactly a schema name that a Plugin may own with a history that a plan may
/// hold, and the plan is for that schema and holds that history. The kit
/// borrows the history for the rest of the process, so the converted list is
/// leaked.
#[verifier::external_body]
fn new_schema_plan(
    schema: &str,
    migrations: &Vec<MigrationSource>,
) -> (result: Result<SchemaPlan, PlanError>)
    ensures
        result is Ok <==> (is_schema_name(schema@) && is_history(migrations@)),
        result is Ok ==> plan_schema(result->Ok_0) == schema@,
        result is Ok ==> plan_migrations(result->Ok_0) == migrations@,
{
    let history: Vec<Migration> = migrations.iter().map(
        |migration| Migration::new(migration.version, migration.name, migration.sql),
    ).collect();
    SchemaPlan::new(schema, Vec::leak(history))
}

/// The history of the Plugin's schema.
pub open spec fn plugin_history() -> Seq<MigrationSource> {
    seq![
        MigrationSource {
            version: 1,
            name: "create-organizations",
            sql: CREATE_ORGANIZATIONS_SQL,
        },
        MigrationSource {
            version: 2,
            name: "separate-access-control",
            sql: SEPARATE_ACCESS_CONTROL_SQL,
        },
        MigrationSource {
            version: 3,
            name: "add-creation-idempotency",
            sql: ADD_CREATION_IDEMPOTENCY_SQL,
        },
    ]
}

/// The history of the Module's schema: it ends before roles leave.
pub open spec fn module_history() -> Seq<MigrationSource> {
    plugin_history().subrange(0, 1)
}

proof fn lemma_trimmed_end_keeps_first(value: Seq<char>)
    requires
        value.len() > 0,
        !text::white_space(value[0]),
    ensures
        text::trimmed_end(value).len() > 0,
    decreases value.len(),
{
    if text::white_space(value.last()) {
        lemma_trimmed_end_keeps_first(value.drop_last());
    }
}

/// Verus learns what a literal holds only where the literal is written out, so
/// the text of the migration stands here again.
proof fn lemma_create_organizations_has_sql()
    ensures
        text::trimmed(CREATE_ORGANIZATIONS_SQL@).len() > 0,
{
    reveal_strlit("CREATE TABLE organizations (
    organization_id text PRIMARY KEY,
    name text NOT NULL,
    slug text NOT NULL,
    revision bigint NOT NULL DEFAULT 1,
    archived_at timestamptz,
    created_at timestamptz NOT NULL DEFAULT transaction_timestamp(),
    updated_at timestamptz NOT NULL DEFAULT transaction_timestamp()
);
CREATE UNIQUE INDEX organizations_active_slug_key
    ON organizations (slug) WHERE archived_at IS NULL;
CREATE TABLE organization_roles (
    role_id text PRIMARY KEY,
    organization_id text NOT NULL REFERENCES organizations(organization_id),
    name text NOT NULL,
    permissions text[] NOT NULL,
    system_key text
);
CREATE TABLE organization_memberships (
    membership_id text PRIMARY KEY,
    organization_id text NOT NULL REFERENCES organizations(organization_id),
    subject text NOT NULL,
    role_id text NOT NULL REFERENCES organization_roles(role_id),
    revision bigint NOT NULL DEFAULT 1,
    removed_at timestamptz,
    created_at timestamptz NOT NULL DEFAULT transaction_timestamp(),
    updated_at timestamptz NOT NULL DEFAULT transaction_timestamp()
);
CREATE UNIQUE INDEX organization_memberships_active_subject_key
    ON organization_memberships (organization_id, subject) WHERE removed_at IS NULL;
");
    lemma_trimmed_end_keeps_first(CREATE_ORGANIZATIONS_SQL@);
}

/// As for the first migration.
proof fn lemma_separate_access_control_has_sql()
    ensures
        text::trimmed(SEPARATE_ACCESS_CONTROL_SQL@).len() > 0,
{
    reveal_strlit("ALTER TABLE organization_memberships ADD COLUMN is_owner boolean NOT NULL DEFAULT false;
UPDATE organization_memberships AS membership
    SET is_owner = true
    FROM organization_roles AS role
    WHERE role.role_id = membership.role_id
        AND role.organization_id = membership.organization_id
        AND role.system_key = 'owner';
DO $$
BEGIN
    IF EXISTS (
        SELECT 1 FROM organizations AS organization
        WHERE organization.archived_at IS NULL AND NOT EXISTS (
            SELECT 1 FROM organization_memberships AS membership
            WHERE membership.organization_id = organization.organization_id
                AND membership.removed_at IS NULL
                AND membership.is_owner
        )
    ) THEN
        RAISE EXCEPTION 'active organization has no active owner';
    END IF;
END
$$;
ALTER TABLE organization_memberships DROP COLUMN role_id;
DROP TABLE organization_roles;
");
    lemma_trimmed_end_keeps_first(SEPARATE_ACCESS_CONTROL_SQL@);
}

/// As for the first migration.
proof fn lemma_add_creation_idempotency_has_sql()
    ensures
        text::trimmed(ADD_CREATION_IDEMPOTENCY_SQL@).len() > 0,
{
    reveal_strlit("CREATE TABLE organization_creation_requests (
    caller_instance text NOT NULL,
    idempotency_key text NOT NULL,
    name text NOT NULL,
    slug text NOT NULL,
    owner_subject text NOT NULL,
    organization_id text NOT NULL
        REFERENCES organizations(organization_id) DEFERRABLE INITIALLY DEFERRED,
    owner_membership_id text NOT NULL
        REFERENCES organization_memberships(membership_id) DEFERRABLE INITIALLY DEFERRED,
    created_at timestamptz NOT NULL DEFAULT transaction_timestamp(),
    PRIMARY KEY (caller_instance, idempotency_key)
);
CREATE TABLE organization_membership_commands (
    caller_instance text NOT NULL,
    idempotency_key text NOT NULL,
    operation text NOT NULL,
    organization_id text NOT NULL,
    subject text NOT NULL,
    membership_id text REFERENCES organization_memberships(membership_id),
    result_revision bigint,
    changed boolean,
    created_at timestamptz NOT NULL DEFAULT transaction_timestamp(),
    completed_at timestamptz,
    PRIMARY KEY (caller_instance, idempotency_key)
);
");
    lemma_trimmed_end_keeps_first(ADD_CREATION_IDEMPOTENCY_SQL@);
}

proof fn lemma_plugin_history_is_a_history()
    ensures
        is_history(plugin_history()),
{
    lemma_create_organizations_has_sql();
    lemma_separate_access_control_has_sql();
    lemma_add_creation_idempotency_has_sql();
    reveal_strlit("create-organizations");
    reveal_strlit("separate-access-control");
    reveal_strlit("add-creation-idempotency");
}

/// The name is not one that a Plugin may own.
#[derive(Clone, Debug, PartialEq, Eq)]
pub struct InvalidSchemaName {
    pub schema: String,
}

impl InvalidSchemaName {
    /// The message of the error.
    pub fn message(&self) -> (result: String)
        ensures
            result@ == "invalid owned schema name `"@ + self.schema@ + "`"@,
    {
        text::enclose("invalid owned schema name `", self.schema.as_str(), "`")
    }
}

/// The history of the Plugin's schema.
pub fn migrations() -> (result: Vec<MigrationSource>)
    ensures
        result@ == plugin_history(),
{
    let mut history: Vec<MigrationSource> = Vec::new();
    history.push(
        MigrationSource {
            version: 1,
            name: "create-organizations",
            sql: CREATE_ORGANIZATIONS_SQL,
        },
    );
    history.push(
        MigrationSource {
            version: 2,
            name: "separate-access-control",
            sql: SEPARATE_ACCESS_CONTROL_SQL,
        },
    );
    history.push(
        MigrationSource {
            version: 3,
            name: "add-creation-idempotency",
            sql: ADD_CREATION_IDEMPOTENCY_SQL,
        },
    );
    history
}

/// The plan of the Plugin's schema under the given name.
pub fn schema_plan(schema: &str) -> (result: Result<SchemaPlan, InvalidSchemaName>)
    ensures
        match result {
            Ok(plan) => is_schema_name(schema@) && plan_schema(plan) == schema@ && plan_migrations(
                plan,
            ) == plugin_history(),
            Err(error) => !is_schema_name(schema@) && error.schema@ == schema@,
        },
{
    proof {
        lemma_plugin_history_is_a_history();
    }
    match new_schema_plan(schema, &migrations()) {
        Ok(plan) => Ok(plan),
        Err(_) => Err(InvalidSchemaName { schema: schema.to_owned() }),
    }
}

/// The plan of the Module's schema under the given name.
pub fn module_schema_plan(schema: &str) -> (result: Result<SchemaPlan, InvalidSchemaName>)
    ensures
        match result {
            Ok(plan) => is_schema_name(schema@) && plan_schema(plan) == schema@ && plan_migrations(
                plan,
            ) == module_history(),
            Err(error) => !is_schema_name(schema@) && error.schema@ == schema@,
        },
{
    proof {
        lemma_plugin_history_is_a_history();
    }
    let mut history = migrations();
    history.truncate(1);
    match new_schema_plan(schema, &history) {
        Ok(plan) => Ok(plan),
        Err(_) => Err(InvalidSchemaName { schema: schema.to_owned() }),
    }
}

} // verus!
