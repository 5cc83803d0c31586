//! How ownership moves from the roles to the memberships: how the migration
//! writes it, and what it makes of the tables.

use vstd::prelude::*;

use crate::postgres_module::store::Store;
use crate::postgres_plugin::tables;
use crate::schema;
use crate::spelling;
use crate::spelling::Words;
use crate::sql::{Column, Database, Row, Table, Value};

verus! {

/// A move of ownership: the memberships whose role has the owner's key are
/// marked by a flag, and the roles leave.
pub struct Separation {
    pub members: Table,
    pub roles: Table,
    pub organizations: Table,
    pub flag: Column,
    pub role: Column,
    pub organization: Column,
    pub key: Column,
    pub owner: Seq<char>,
    pub archived: Column,
    pub removed: Column,
}

/// The move that the second migration makes.
pub open spec fn separation() -> Separation {
    Separation {
        members: Table::Memberships,
        roles: Table::Roles,
        organizations: Table::Organizations,
        flag: Column::IsOwner,
        role: Column::RoleId,
        organization: Column::OrganizationId,
        key: Column::SystemKey,
        owner: "owner"@,
        archived: Column::ArchivedAt,
        removed: Column::RemovedAt,
    }
}

impl Separation {
    /// How the column for ownership is added.
    pub open spec fn addition(self, rest: Words) -> Words {
        let rest = spelling::word(" boolean NOT NULL DEFAULT false;\n"@, rest);
        let rest = spelling::word(self.flag.name(), rest);
        let rest = spelling::word(" ADD COLUMN "@, rest);
        let rest = spelling::word(self.members.name(), rest);
        let rest = spelling::word("ALTER TABLE "@, rest);
        rest
    }

    /// How the owners are marked.
    pub open spec fn marking(self, rest: Words) -> Words {
        let rest = spelling::word("';\n"@, rest);
        let rest = spelling::word(self.owner, rest);
        let rest = spelling::word(" = '"@, rest);
        let rest = spelling::word(self.key.name(), rest);
        let rest = spelling::word("\n        AND role."@, rest);
        let rest = spelling::word(self.organization.name(), rest);
        let rest = spelling::word(" = membership."@, rest);
        let rest = spelling::word(self.organization.name(), rest);
        let rest = spelling::word("\n        AND role."@, rest);
        let rest = spelling::word(self.role.name(), rest);
        let rest = spelling::word(" = membership."@, rest);
        let rest = spelling::word(self.role.name(), rest);
        let rest = spelling::word(" AS role\n    WHERE role."@, rest);
        let rest = spelling::word(self.roles.name(), rest);
        let rest = spelling::word(" = true\n    FROM "@, rest);
        let rest = spelling::word(self.flag.name(), rest);
        let rest = spelling::word(" AS membership\n    SET "@, rest);
        let rest = spelling::word(self.members.name(), rest);
        let rest = spelling::word("UPDATE "@, rest);
        rest
    }

    /// How an Organization that counts is looked for.
    pub open spec fn refusal(self, rest: Words) -> Words {
        let rest = spelling::word(" AS membership\n"@, rest);
        let rest = spelling::word(self.members.name(), rest);
        let rest = spelling::word(" IS NULL AND NOT EXISTS (\n            SELECT 1 FROM "@, rest);
        let rest = spelling::word(self.archived.name(), rest);
        let rest = spelling::word(" AS organization\n        WHERE organization."@, rest);
        let rest = spelling::word(self.organizations.name(), rest);
        let rest = spelling::word("DO $$\nBEGIN\n    IF EXISTS (\n        SELECT 1 FROM "@, rest);
        rest
    }

    /// How its owner is looked for.
    pub open spec fn ownership(self, rest: Words) -> Words {
        let rest = spelling::word("\n        )\n    ) THEN\n        RAISE EXCEPTION 'active organization has no active owner';\n    END IF;\nEND\n$$;\n"@, rest);
        let rest = spelling::word(self.flag.name(), rest);
        let rest = spelling::word(" IS NULL\n                AND membership."@, rest);
        let rest = spelling::word(self.removed.name(), rest);
        let rest = spelling::word("\n                AND membership."@, rest);
        let rest = spelling::word(self.organization.name(), rest);
        let rest = spelling::word(" = organization."@, rest);
        let rest = spelling::word(self.organization.name(), rest);
        let rest = spelling::word("            WHERE membership."@, rest);
        rest
    }

    /// How the roles leave.
    pub open spec fn dropping(self, rest: Words) -> Words {
        let rest = spelling::word(";\n"@, rest);
        let rest = spelling::word(self.roles.name(), rest);
        let rest = spelling::word(";\nDROP TABLE "@, rest);
        let rest = spelling::word(self.role.name(), rest);
        let rest = spelling::word(" DROP COLUMN "@, rest);
        let rest = spelling::word(self.members.name(), rest);
        let rest = spelling::word("ALTER TABLE "@, rest);
        rest
    }

    /// How the move is written.
    pub open spec fn words(self) -> Words {
        self.addition(self.marking(self.refusal(self.ownership(self.dropping(Words::End)))))
    }

    /// Whether a role of the membership's own Organization with the owner's key
    /// is the role of the membership.
    pub open spec fn is_owner_row(self, database: Database, row: Row) -> bool {
        exists|j: int|
            0 <= j < database.table(self.roles).len() && self.is_owned_through(
                row,
                #[trigger] database.table(self.roles)[j],
            )
    }

    /// Whether the role is the membership's, and the owner's.
    pub open spec fn is_owned_through(self, row: Row, role: Row) -> bool {
        &&& role[self.role] == row[self.role] && !(row[self.role] is Null)
        &&& role[self.organization] == row[self.organization]
        &&& !(row[self.organization] is Null)
        &&& role[self.key] == Value::Text(self.owner)
    }

    /// The tables once every membership is marked.
    pub open spec fn marked(self, database: Database) -> Database {
        let rows = database.table(self.members);
        database.with(
            self.members,
            Seq::new(
                rows.len(),
                |i: int|
                    rows[i].insert(self.flag, Value::Flag(self.is_owner_row(database, rows[i]))),
            ),
        )
    }

    /// Whether the membership is an active one of the Organization, and marked.
    pub open spec fn is_owner_of(self, organization: Row, row: Row) -> bool {
        &&& row[self.organization] == organization[self.organization]
        &&& row[self.removed] is Null
        &&& row[self.flag] == Value::Flag(true)
    }

    /// Whether an Organization that is not archived is without an owner.
    pub open spec fn is_refused(self, marked: Database) -> bool {
        exists|i: int|
            0 <= i < marked.table(self.organizations).len() && (#[trigger] marked.table(
                self.organizations,
            )[i])[self.archived] is Null && !self.has_owner(
                marked,
                marked.table(self.organizations)[i],
            )
    }

    /// Whether a membership is an active one of the Organization, and marked.
    pub open spec fn has_owner(self, marked: Database, organization: Row) -> bool {
        exists|j: int|
            0 <= j < marked.table(self.members).len() && self.is_owner_of(
                organization,
                #[trigger] marked.table(self.members)[j],
            )
    }

    /// The tables once the roles have left.
    pub open spec fn separated(self, database: Database) -> Database {
        let marked = self.marked(database);
        let rows = marked.table(self.members);
        marked.with(self.roles, Seq::empty()).with(
            self.members,
            Seq::new(rows.len(), |i: int| rows[i].remove(self.role)),
        )
    }
}

proof fn lemma_addition_is_written(rest: Words)
    ensures
        "ALTER TABLE organization_memberships ADD COLUMN is_owner boolean NOT NULL DEFAULT false;\n"@.len() == 89,
        spelling::begins(
            "ALTER TABLE organization_memberships ADD COLUMN is_owner boolean NOT NULL DEFAULT false;\n"@,
            0,
            separation().addition(rest),
            rest,
        ),
{
    reveal_strlit("ALTER TABLE organization_memberships ADD COLUMN is_owner boolean NOT NULL DEFAULT false;\n");
    reveal_strlit("ALTER TABLE ");
    reveal_strlit("organization_memberships");
    reveal_strlit(" ADD COLUMN ");
    reveal_strlit("is_owner");
    reveal_strlit(" boolean NOT NULL DEFAULT false;\n");
    reveal_with_fuel(spelling::begins, 6);
}

proof fn lemma_marking_is_written(rest: Words)
    ensures
        "UPDATE organization_memberships AS membership\n    SET is_owner = true\n    FROM organization_roles AS role\n    WHERE role.role_id = membership.role_id\n        AND role.organization_id = membership.organization_id\n        AND role.system_key = 'owner';\n"@.len() == 251,
        spelling::begins(
            "UPDATE organization_memberships AS membership\n    SET is_owner = true\n    FROM organization_roles AS role\n    WHERE role.role_id = membership.role_id\n        AND role.organization_id = membership.organization_id\n        AND role.system_key = 'owner';\n"@,
            0,
            separation().marking(rest),
            rest,
        ),
{
    reveal_strlit("UPDATE organization_memberships AS membership\n    SET is_owner = true\n    FROM organization_roles AS role\n    WHERE role.role_id = membership.role_id\n        AND role.organization_id = membership.organization_id\n        AND role.system_key = 'owner';\n");
    reveal_strlit("UPDATE ");
    reveal_strlit("organization_memberships");
    reveal_strlit(" AS membership\n    SET ");
    reveal_strlit("is_owner");
    reveal_strlit(" = true\n    FROM ");
    reveal_strlit("organization_roles");
    reveal_strlit(" AS role\n    WHERE role.");
    reveal_strlit("role_id");
    reveal_strlit(" = membership.");
    reveal_strlit("\n        AND role.");
    reveal_strlit("organization_id");
    reveal_strlit("system_key");
    reveal_strlit(" = '");
    reveal_strlit("owner");
    reveal_strlit("';\n");
    reveal_with_fuel(spelling::begins, 20);
}

proof fn lemma_refusal_is_written(rest: Words)
    ensures
        "DO $$\nBEGIN\n    IF EXISTS (\n        SELECT 1 FROM organizations AS organization\n        WHERE organization.archived_at IS NULL AND NOT EXISTS (\n            SELECT 1 FROM organization_memberships AS membership\n"@.len() == 209,
        spelling::begins(
            "DO $$\nBEGIN\n    IF EXISTS (\n        SELECT 1 FROM organizations AS organization\n        WHERE organization.archived_at IS NULL AND NOT EXISTS (\n            SELECT 1 FROM organization_memberships AS membership\n"@,
            0,
            separation().refusal(rest),
            rest,
        ),
{
    reveal_strlit("DO $$\nBEGIN\n    IF EXISTS (\n        SELECT 1 FROM organizations AS organization\n        WHERE organization.archived_at IS NULL AND NOT EXISTS (\n            SELECT 1 FROM organization_memberships AS membership\n");
    reveal_strlit("DO $$\nBEGIN\n    IF EXISTS (\n        SELECT 1 FROM ");
    reveal_strlit("organizations");
    reveal_strlit(" AS organization\n        WHERE organization.");
    reveal_strlit("archived_at");
    reveal_strlit(" IS NULL AND NOT EXISTS (\n            SELECT 1 FROM ");
    reveal_strlit("organization_memberships");
    reveal_strlit(" AS membership\n");
    reveal_with_fuel(spelling::begins, 8);
}

proof fn lemma_ownership_is_written(rest: Words)
    ensures
        "            WHERE membership.organization_id = organization.organization_id\n                AND membership.removed_at IS NULL\n                AND membership.is_owner\n        )\n    ) THEN\n        RAISE EXCEPTION 'active organization has no active owner';\n    END IF;\nEND\n$$;\n"@.len() == 274,
        spelling::begins(
            "            WHERE membership.organization_id = organization.organization_id\n                AND membership.removed_at IS NULL\n                AND membership.is_owner\n        )\n    ) THEN\n        RAISE EXCEPTION 'active organization has no active owner';\n    END IF;\nEND\n$$;\n"@,
            0,
            separation().ownership(rest),
            rest,
        ),
{
    reveal_strlit("            WHERE membership.organization_id = organization.organization_id\n                AND membership.removed_at IS NULL\n                AND membership.is_owner\n        )\n    ) THEN\n        RAISE EXCEPTION 'active organization has no active owner';\n    END IF;\nEND\n$$;\n");
    reveal_strlit("            WHERE membership.");
    reveal_strlit("organization_id");
    reveal_strlit(" = organization.");
    reveal_strlit("\n                AND membership.");
    reveal_strlit("removed_at");
    reveal_strlit(" IS NULL\n                AND membership.");
    reveal_strlit("is_owner");
    reveal_strlit("\n        )\n    ) THEN\n        RAISE EXCEPTION 'active organization has no active owner';\n    END IF;\nEND\n$$;\n");
    reveal_with_fuel(spelling::begins, 10);
}

proof fn lemma_dropping_is_written(rest: Words)
    ensures
        "ALTER TABLE organization_memberships DROP COLUMN role_id;\nDROP TABLE organization_roles;\n"@.len() == 89,
        spelling::begins(
            "ALTER TABLE organization_memberships DROP COLUMN role_id;\nDROP TABLE organization_roles;\n"@,
            0,
            separation().dropping(rest),
            rest,
        ),
{
    reveal_strlit("ALTER TABLE organization_memberships DROP COLUMN role_id;\nDROP TABLE organization_roles;\n");
    reveal_strlit("ALTER TABLE ");
    reveal_strlit("organization_memberships");
    reveal_strlit(" DROP COLUMN ");
    reveal_strlit("role_id");
    reveal_strlit(";\nDROP TABLE ");
    reveal_strlit("organization_roles");
    reveal_strlit(";\n");
    reveal_with_fuel(spelling::begins, 8);
}

/// Where the parts of the text stand.
#[verifier::rlimit(100)]
proof fn lemma_parts()
    ensures
        schema::SEPARATE_ACCESS_CONTROL_SQL@.len() == 912,
        spelling::is_at(schema::SEPARATE_ACCESS_CONTROL_SQL@, 0, "ALTER TABLE organization_memberships ADD COLUMN is_owner boolean NOT NULL DEFAULT false;\n"@),
        spelling::is_at(schema::SEPARATE_ACCESS_CONTROL_SQL@, 89, "UPDATE organization_memberships AS membership\n    SET is_owner = true\n    FROM organization_roles AS role\n    WHERE role.role_id = membership.role_id\n        AND role.organization_id = membership.organization_id\n        AND role.system_key = 'owner';\n"@),
        spelling::is_at(schema::SEPARATE_ACCESS_CONTROL_SQL@, 340, "DO $$\nBEGIN\n    IF EXISTS (\n        SELECT 1 FROM organizations AS organization\n        WHERE organization.archived_at IS NULL AND NOT EXISTS (\n            SELECT 1 FROM organization_memberships AS membership\n"@),
        spelling::is_at(schema::SEPARATE_ACCESS_CONTROL_SQL@, 549, "            WHERE membership.organization_id = organization.organization_id\n                AND membership.removed_at IS NULL\n                AND membership.is_owner\n        )\n    ) THEN\n        RAISE EXCEPTION 'active organization has no active owner';\n    END IF;\nEND\n$$;\n"@),
        spelling::is_at(schema::SEPARATE_ACCESS_CONTROL_SQL@, 823, "ALTER TABLE organization_memberships DROP COLUMN role_id;\nDROP TABLE organization_roles;\n"@),
{
    reveal_strlit("ALTER TABLE organization_memberships ADD COLUMN is_owner boolean NOT NULL DEFAULT false;
UPDATE organization_memberships AS membership
    SET is_owner = true
    FROM organization_roles AS role
    WHERE role.role_id = membership.role_id
        AND role.organization_id = membership.organization_id
        AND role.system_key = 'owner';
DO $$
BEGIN
    IF EXISTS (
        SELECT 1 FROM organizations AS organization
        WHERE organization.archived_at IS NULL AND NOT EXISTS (
            SELECT 1 FROM organization_memberships AS membership
            WHERE membership.organization_id = organization.organization_id
                AND membership.removed_at IS NULL
                AND membership.is_owner
        )
    ) THEN
        RAISE EXCEPTION 'active organization has no active owner';
    END IF;
END
$$;
ALTER TABLE organization_memberships DROP COLUMN role_id;
DROP TABLE organization_roles;
");
    reveal_strlit("ALTER TABLE organization_memberships ADD COLUMN is_owner boolean NOT NULL DEFAULT false;\n");
    reveal_strlit("UPDATE organization_memberships AS membership\n    SET is_owner = true\n    FROM organization_roles AS role\n    WHERE role.role_id = membership.role_id\n        AND role.organization_id = membership.organization_id\n        AND role.system_key = 'owner';\n");
    reveal_strlit("DO $$\nBEGIN\n    IF EXISTS (\n        SELECT 1 FROM organizations AS organization\n        WHERE organization.archived_at IS NULL AND NOT EXISTS (\n            SELECT 1 FROM organization_memberships AS membership\n");
    reveal_strlit("            WHERE membership.organization_id = organization.organization_id\n                AND membership.removed_at IS NULL\n                AND membership.is_owner\n        )\n    ) THEN\n        RAISE EXCEPTION 'active organization has no active owner';\n    END IF;\nEND\n$$;\n");
    reveal_strlit("ALTER TABLE organization_memberships DROP COLUMN role_id;\nDROP TABLE organization_roles;\n");
}

proof fn lemma_separation_reads()
    ensures
        spelling::spells(schema::SEPARATE_ACCESS_CONTROL_SQL@, 0, separation().words()),
{
    lemma_parts();
    let text = schema::SEPARATE_ACCESS_CONTROL_SQL@;
    let end = Words::End;
    let from_dropping = separation().dropping(end);
    let from_ownership = separation().ownership(from_dropping);
    let from_refusal = separation().refusal(from_ownership);
    let from_marking = separation().marking(from_refusal);
    let from_addition = separation().addition(from_marking);
    lemma_dropping_is_written(end);
    spelling::lemma_begins("ALTER TABLE organization_memberships DROP COLUMN role_id;\nDROP TABLE organization_roles;\n"@, 0, from_dropping, end, text, 823);
    lemma_ownership_is_written(from_dropping);
    spelling::lemma_begins("            WHERE membership.organization_id = organization.organization_id\n                AND membership.removed_at IS NULL\n                AND membership.is_owner\n        )\n    ) THEN\n        RAISE EXCEPTION 'active organization has no active owner';\n    END IF;\nEND\n$$;\n"@, 0, from_ownership, from_dropping, text, 549);
    lemma_refusal_is_written(from_ownership);
    spelling::lemma_begins("DO $$\nBEGIN\n    IF EXISTS (\n        SELECT 1 FROM organizations AS organization\n        WHERE organization.archived_at IS NULL AND NOT EXISTS (\n            SELECT 1 FROM organization_memberships AS membership\n"@, 0, from_refusal, from_ownership, text, 340);
    lemma_marking_is_written(from_refusal);
    spelling::lemma_begins("UPDATE organization_memberships AS membership\n    SET is_owner = true\n    FROM organization_roles AS role\n    WHERE role.role_id = membership.role_id\n        AND role.organization_id = membership.organization_id\n        AND role.system_key = 'owner';\n"@, 0, from_marking, from_refusal, text, 89);
    lemma_addition_is_written(from_marking);
    spelling::lemma_begins("ALTER TABLE organization_memberships ADD COLUMN is_owner boolean NOT NULL DEFAULT false;\n"@, 0, from_addition, from_marking, text, 0);
}

proof fn lemma_ownership_is_marked(legacy: Store, database: Database, i: int)
    requires
        legacy.is_held_in(database),
        0 <= i < legacy.memberships.len(),
    ensures
        separation().is_owner_row(database, database.memberships[i]) == legacy.is_owner_at(i),
{
    let row = database.memberships[i];
    let roles = database.table(Table::Roles);
    let role_id = legacy.memberships[i].role_id;
    assert(roles == database.roles);
    if legacy.is_owner_at(i) {
        let j = choose|j: int|
            0 <= j < roles.len() && (#[trigger] roles[j])[Column::RoleId] == Value::Text(role_id);
        assert(separation().is_owned_through(row, roles[j]));
    }
    if separation().is_owner_row(database, row) {
        let j = choose|j: int|
            0 <= j < roles.len() && separation().is_owned_through(row, #[trigger] roles[j]);
        assert(roles[j][Column::RoleId] == Value::Text(role_id));
    }
}

proof fn lemma_owners_are_found(legacy: Store, database: Database, i: int)
    requires
        legacy.is_held_in(database),
        0 <= i < database.organizations.len(),
    ensures
        separation().has_owner(
            separation().marked(database),
            database.organizations[i],
        ) == legacy.projected().has_owner(database.organizations[i][Column::OrganizationId]->Text_0),
{
    let organization = database.organizations[i];
    let id = organization[Column::OrganizationId]->Text_0;
    assert(organization[Column::OrganizationId] == Value::Text(id));
    let rows = separation().marked(database).table(Table::Memberships);
    let projected = legacy.projected();
    assert forall|j: int| 0 <= j < rows.len() implies separation().is_owner_of(
        organization,
        #[trigger] rows[j],
    ) == (projected.memberships[j].organization_id == id && projected.memberships[j].is_owner
        && projected.memberships[j].active) by {
        lemma_ownership_is_marked(legacy, database, j);
        assert(rows[j] == database.memberships[j].insert(
            Column::IsOwner,
            Value::Flag(legacy.is_owner_at(j)),
        ));
    }
    if projected.has_owner(id) {
        let j = choose|j: int|
            0 <= j < projected.memberships.len() && (
            #[trigger] projected.memberships[j]).organization_id == id
                && projected.memberships[j].is_owner && projected.memberships[j].active;
        assert(separation().is_owner_of(organization, rows[j]));
    }
}

/// The second migration, read as SQL, makes of a database that holds the
/// Module's tables one that holds the Plugin's memberships, with the ownership
/// that the roles gave. It is refused exactly if the upgrade is, and no role is
/// left.
pub proof fn law_separation_upgrades_the_tables(legacy: Store, database: Database)
    requires
        legacy.is_held_in(database),
    ensures
        spelling::spells(schema::plugin_history()[1].sql@, 0, separation().words()),
        separation().is_refused(separation().marked(database)) <==> legacy.upgraded() is None,
        separation().separated(database).organizations == database.organizations,
        separation().separated(database).roles.len() == 0,
        separation().separated(database).memberships.len()
            == legacy.projected().memberships.len(),
        forall|i: int|
            0 <= i < legacy.memberships.len() ==> tables::is_membership(
                #[trigger] separation().separated(database).memberships[i],
                legacy.projected().memberships[i],
            ),
{
    lemma_separation_reads();
    let marked = separation().marked(database);
    let organizations = marked.table(Table::Organizations);
    let projected = legacy.projected();
    assert(organizations == database.organizations);
    if separation().is_refused(marked) {
        let i = choose|i: int|
            0 <= i < organizations.len() && (
            #[trigger] organizations[i])[Column::ArchivedAt] is Null && !separation().has_owner(
                marked,
                organizations[i],
            );
        lemma_owners_are_found(legacy, database, i);
        let id = organizations[i][Column::OrganizationId]->Text_0;
        assert(projected.organizations.contains_key(id) && !projected.has_owner(id));
    }
    if legacy.upgraded() is None {
        let id = choose|id: Seq<char>| #[trigger]
            projected.organizations.contains_key(id) && projected.organizations[id].active
                && !projected.has_owner(id);
        assert(legacy.organizations.contains_key(id));
        let i = choose|i: int|
            0 <= i < organizations.len() && (#[trigger] organizations[i])[Column::OrganizationId]
                == Value::Text(id);
        lemma_owners_are_found(legacy, database, i);
        assert(organizations[i][Column::ArchivedAt] is Null);
    }
    assert forall|i: int| 0 <= i < legacy.memberships.len() implies tables::is_membership(
        #[trigger] separation().separated(database).memberships[i],
        projected.memberships[i],
    ) by {
        lemma_ownership_is_marked(legacy, database, i);
        let row = database.memberships[i];
        assert(separation().separated(database).memberships[i] == row.insert(
            Column::IsOwner,
            Value::Flag(legacy.is_owner_at(i)),
        ).remove(Column::RoleId));
    }
}

} // verus!
