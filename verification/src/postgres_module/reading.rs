//! The texts of the Module's statements, read as SQL.

use vstd::prelude::*;

use crate::postgres_module::statements::Statement;
use crate::spelling;
use crate::spelling::Words;
use crate::sql;

verus! {

proof fn lemma_insert_organization_reads(statement: Statement<Seq<char>>)
    requires
        statement is InsertOrganization,
    ensures
        sql::reads_as(statement.text(), statement.command()),
{
    reveal_strlit("INSERT INTO organizations (organization_id,name,slug) VALUES ($1,$2,$3)");
    reveal_strlit("INSERT INTO ");
    reveal_strlit("organizations");
    reveal_strlit(" (");
    reveal_strlit("organization_id");
    reveal_strlit(",");
    reveal_strlit("name");
    reveal_strlit("slug");
    reveal_strlit(") VALUES (");
    reveal_strlit("$");
    reveal_strlit(")");
    reveal_with_fuel(spelling::spells, 19);
    reveal_with_fuel(sql::column_words, 4);
    reveal_with_fuel(sql::term_words, 4);
}

proof fn lemma_insert_owner_role_reads(statement: Statement<Seq<char>>)
    requires
        statement is InsertOwnerRole,
    ensures
        sql::reads_as(statement.text(), statement.command()),
{
    reveal_strlit("INSERT INTO organization_roles (role_id,organization_id,name,permissions,system_key) VALUES ($1,$2,'Owner',$3,'owner')");
    reveal_strlit("INSERT INTO ");
    reveal_strlit("organization_roles");
    reveal_strlit(" (");
    reveal_strlit("role_id");
    reveal_strlit(",");
    reveal_strlit("organization_id");
    reveal_strlit("name");
    reveal_strlit("permissions");
    reveal_strlit("system_key");
    reveal_strlit(") VALUES (");
    reveal_strlit("$");
    reveal_strlit("'");
    reveal_strlit("Owner");
    reveal_strlit("owner");
    reveal_strlit(")");
    reveal_with_fuel(spelling::spells, 31);
    reveal_with_fuel(sql::column_words, 6);
    reveal_with_fuel(sql::term_words, 6);
}

proof fn lemma_insert_membership_reads(statement: Statement<Seq<char>>)
    requires
        statement is InsertMembership,
    ensures
        sql::reads_as(statement.text(), statement.command()),
{
    reveal_strlit("INSERT INTO organization_memberships (membership_id,organization_id,subject,role_id) VALUES ($1,$2,$3,$4)");
    reveal_strlit("INSERT INTO ");
    reveal_strlit("organization_memberships");
    reveal_strlit(" (");
    reveal_strlit("membership_id");
    reveal_strlit(",");
    reveal_strlit("organization_id");
    reveal_strlit("subject");
    reveal_strlit("role_id");
    reveal_strlit(") VALUES (");
    reveal_strlit("$");
    reveal_strlit(")");
    reveal_with_fuel(spelling::spells, 24);
    reveal_with_fuel(sql::column_words, 5);
    reveal_with_fuel(sql::term_words, 5);
}

proof fn lemma_check_permission_reads_from_allowed(statement: Statement<Seq<char>>)
    requires
        statement is CheckPermission,
    ensures
        spelling::spells(
            statement.text(),
            114,
            sql::probe_words(
                statement.command()->probes,
                statement.command()->labels,
                1,
                Words::End,
            ),
        ),
{
    reveal_strlit("SELECT EXISTS(SELECT 1 FROM organizations WHERE organization_id=$1 AND archived_at IS NULL) AS organization_exists, EXISTS(SELECT 1 FROM organization_memberships m JOIN organization_roles r ON r.role_id=m.role_id AND r.organization_id=m.organization_id WHERE m.organization_id=$1 AND m.subject=$2 AND m.removed_at IS NULL AND $3=ANY(r.permissions)) AS allowed");
    reveal_strlit(", ");
    reveal_strlit("EXISTS(SELECT 1 FROM ");
    reveal_strlit("organization_memberships");
    reveal_strlit(" m JOIN ");
    reveal_strlit("organization_roles");
    reveal_strlit(" r ON ");
    reveal_strlit("r.");
    reveal_strlit("role_id");
    reveal_strlit("=m.");
    reveal_strlit(" AND ");
    reveal_strlit("organization_id");
    reveal_strlit(" WHERE ");
    reveal_strlit("m.");
    reveal_strlit("=");
    reveal_strlit("$");
    reveal_strlit("subject");
    reveal_strlit("removed_at");
    reveal_strlit(" IS NULL");
    reveal_strlit("=ANY(r.");
    reveal_strlit("permissions");
    reveal_strlit("))");
    reveal_strlit(" AS ");
    reveal_strlit("allowed");
    reveal_with_fuel(spelling::spells, 46);
    reveal_with_fuel(sql::condition_words, 4);
    reveal_with_fuel(sql::join_words, 3);
    reveal_with_fuel(sql::probe_words, 2);
}

proof fn lemma_check_permission_reads(statement: Statement<Seq<char>>)
    requires
        statement is CheckPermission,
    ensures
        sql::reads_as(statement.text(), statement.command()),
{
    lemma_check_permission_reads_from_allowed(statement);
    reveal_strlit("SELECT EXISTS(SELECT 1 FROM organizations WHERE organization_id=$1 AND archived_at IS NULL) AS organization_exists, EXISTS(SELECT 1 FROM organization_memberships m JOIN organization_roles r ON r.role_id=m.role_id AND r.organization_id=m.organization_id WHERE m.organization_id=$1 AND m.subject=$2 AND m.removed_at IS NULL AND $3=ANY(r.permissions)) AS allowed");
    reveal_strlit("SELECT ");
    reveal_strlit("EXISTS(SELECT 1 FROM ");
    reveal_strlit("organizations");
    reveal_strlit(" WHERE ");
    reveal_strlit("");
    reveal_strlit("organization_id");
    reveal_strlit("=");
    reveal_strlit("$");
    reveal_strlit(" AND ");
    reveal_strlit("archived_at");
    reveal_strlit(" IS NULL");
    reveal_strlit(")");
    reveal_strlit(" AS ");
    reveal_strlit("organization_exists");
    reveal_with_fuel(spelling::spells, 20);
    reveal_with_fuel(sql::condition_words, 3);
}

/// The text of each statement is the statement's command.
pub proof fn lemma_statement_reads(statement: Statement<Seq<char>>)
    ensures
        sql::reads_as(statement.text(), statement.command()),
{
    match statement {
        Statement::InsertOrganization { .. } => lemma_insert_organization_reads(statement),
        Statement::InsertOwnerRole { .. } => lemma_insert_owner_role_reads(statement),
        Statement::InsertMembership { .. } => lemma_insert_membership_reads(statement),
        Statement::CheckPermission { .. } => lemma_check_permission_reads(statement),
    }
}

} // verus!
