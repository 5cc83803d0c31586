//! The texts of the Plugin's statements, read as SQL.

use vstd::prelude::*;

use crate::postgres_plugin::statements::Statement;
use crate::spelling;
use crate::spelling::Words;
use crate::sql;

verus! {

proof fn lemma_reserve_creation_reads(statement: Statement<Seq<char>>)
    requires
        statement is ReserveCreation,
    ensures
        sql::reads_as(statement.text(), statement.command()),
{
    reveal_strlit("INSERT INTO organization_creation_requests (caller_instance,idempotency_key,name,slug,owner_subject,organization_id,owner_membership_id) VALUES ($1,$2,$3,$4,$5,$6,$7) ON CONFLICT (caller_instance,idempotency_key) DO NOTHING");
    reveal_strlit("INSERT INTO ");
    reveal_strlit("organization_creation_requests");
    reveal_strlit(" (");
    reveal_strlit("caller_instance");
    reveal_strlit(",");
    reveal_strlit("idempotency_key");
    reveal_strlit("name");
    reveal_strlit("slug");
    reveal_strlit("owner_subject");
    reveal_strlit("organization_id");
    reveal_strlit("owner_membership_id");
    reveal_strlit(") VALUES (");
    reveal_strlit("$");
    reveal_strlit(")");
    reveal_strlit(" ON CONFLICT (");
    reveal_strlit(") DO NOTHING");
    reveal_with_fuel(spelling::spells, 44);
    reveal_with_fuel(sql::column_words, 8);
    reveal_with_fuel(sql::term_words, 8);
}

proof fn lemma_read_creation_reads(statement: Statement<Seq<char>>)
    requires
        statement is ReadCreation,
    ensures
        sql::reads_as(statement.text(), statement.command()),
{
    reveal_strlit("SELECT name,slug,owner_subject,organization_id,owner_membership_id FROM organization_creation_requests WHERE caller_instance=$1 AND idempotency_key=$2");
    reveal_strlit("SELECT ");
    reveal_strlit("name");
    reveal_strlit(",");
    reveal_strlit("slug");
    reveal_strlit("owner_subject");
    reveal_strlit("organization_id");
    reveal_strlit("owner_membership_id");
    reveal_strlit(" FROM ");
    reveal_strlit("organization_creation_requests");
    reveal_strlit(" WHERE ");
    reveal_strlit("");
    reveal_strlit("caller_instance");
    reveal_strlit("=");
    reveal_strlit("$");
    reveal_strlit(" AND ");
    reveal_strlit("idempotency_key");
    reveal_with_fuel(spelling::spells, 25);
    reveal_with_fuel(sql::item_words, 6);
    reveal_with_fuel(sql::condition_words, 3);
}

proof fn lemma_insert_organization_reads(statement: Statement<Seq<char>>)
    requires
        statement is InsertOrganization,
    ensures
        sql::reads_as(statement.text(), statement.command()),
{
    reveal_strlit("INSERT INTO organizations (organization_id,name,slug) VALUES ($1,$2,$3)");
    reveal_strlit("INSERT INTO ");
    reveal_strlit("organizations");
    reveal_strlit(" (");
    reveal_strlit("organization_id");
    reveal_strlit(",");
    reveal_strlit("name");
    reveal_strlit("slug");
    reveal_strlit(") VALUES (");
    reveal_strlit("$");
    reveal_strlit(")");
    reveal_with_fuel(spelling::spells, 19);
    reveal_with_fuel(sql::column_words, 4);
    reveal_with_fuel(sql::term_words, 4);
}

proof fn lemma_insert_owner_reads(statement: Statement<Seq<char>>)
    requires
        statement is InsertOwner,
    ensures
        sql::reads_as(statement.text(), statement.command()),
{
    reveal_strlit("INSERT INTO organization_memberships (membership_id,organization_id,subject,is_owner) VALUES ($1,$2,$3,true)");
    reveal_strlit("INSERT INTO ");
    reveal_strlit("organization_memberships");
    reveal_strlit(" (");
    reveal_strlit("membership_id");
    reveal_strlit(",");
    reveal_strlit("organization_id");
    reveal_strlit("subject");
    reveal_strlit("is_owner");
    reveal_strlit(") VALUES (");
    reveal_strlit("$");
    reveal_strlit("true");
    reveal_strlit(")");
    reveal_with_fuel(spelling::spells, 23);
    reveal_with_fuel(sql::column_words, 5);
    reveal_with_fuel(sql::term_words, 5);
}

proof fn lemma_reserve_command_reads(statement: Statement<Seq<char>>)
    requires
        statement is ReserveCommand,
    ensures
        sql::reads_as(statement.text(), statement.command()),
{
    reveal_strlit("INSERT INTO organization_membership_commands (caller_instance,idempotency_key,operation,organization_id,subject) VALUES ($1,$2,$3,$4,$5) ON CONFLICT (caller_instance,idempotency_key) DO NOTHING");
    reveal_strlit("INSERT INTO ");
    reveal_strlit("organization_membership_commands");
    reveal_strlit(" (");
    reveal_strlit("caller_instance");
    reveal_strlit(",");
    reveal_strlit("idempotency_key");
    reveal_strlit("operation");
    reveal_strlit("organization_id");
    reveal_strlit("subject");
    reveal_strlit(") VALUES (");
    reveal_strlit("$");
    reveal_strlit(")");
    reveal_strlit(" ON CONFLICT (");
    reveal_strlit(") DO NOTHING");
    reveal_with_fuel(spelling::spells, 34);
    reveal_with_fuel(sql::column_words, 6);
    reveal_with_fuel(sql::term_words, 6);
}

proof fn lemma_read_command_reads(statement: Statement<Seq<char>>)
    requires
        statement is ReadCommand,
    ensures
        sql::reads_as(statement.text(), statement.command()),
{
    reveal_strlit("SELECT operation,organization_id,subject,membership_id,result_revision,changed FROM organization_membership_commands WHERE caller_instance=$1 AND idempotency_key=$2 FOR UPDATE");
    reveal_strlit("SELECT ");
    reveal_strlit("operation");
    reveal_strlit(",");
    reveal_strlit("organization_id");
    reveal_strlit("subject");
    reveal_strlit("membership_id");
    reveal_strlit("result_revision");
    reveal_strlit("changed");
    reveal_strlit(" FROM ");
    reveal_strlit("organization_membership_commands");
    reveal_strlit(" WHERE ");
    reveal_strlit("");
    reveal_strlit("caller_instance");
    reveal_strlit("=");
    reveal_strlit("$");
    reveal_strlit(" AND ");
    reveal_strlit("idempotency_key");
    reveal_strlit(" FOR UPDATE");
    reveal_with_fuel(spelling::spells, 28);
    reveal_with_fuel(sql::item_words, 7);
    reveal_with_fuel(sql::condition_words, 3);
}

proof fn lemma_complete_command_reads(statement: Statement<Seq<char>>)
    requires
        statement is CompleteCommand,
    ensures
        sql::reads_as(statement.text(), statement.command()),
{
    reveal_strlit("UPDATE organization_membership_commands SET membership_id=$3,result_revision=$4,changed=$5,completed_at=transaction_timestamp() WHERE caller_instance=$1 AND idempotency_key=$2 AND completed_at IS NULL");
    reveal_strlit("UPDATE ");
    reveal_strlit("organization_membership_commands");
    reveal_strlit(" SET ");
    reveal_strlit("membership_id");
    reveal_strlit("=");
    reveal_strlit("$");
    reveal_strlit(",");
    reveal_strlit("result_revision");
    reveal_strlit("changed");
    reveal_strlit("completed_at");
    reveal_strlit("transaction_timestamp()");
    reveal_strlit(" WHERE ");
    reveal_strlit("");
    reveal_strlit("caller_instance");
    reveal_strlit(" AND ");
    reveal_strlit("idempotency_key");
    reveal_strlit(" IS NULL");
    reveal_with_fuel(spelling::spells, 38);
    reveal_with_fuel(sql::assignment_words, 5);
    reveal_with_fuel(sql::condition_words, 4);
}

proof fn lemma_lock_organization_reads(statement: Statement<Seq<char>>)
    requires
        statement is LockOrganization,
    ensures
        sql::reads_as(statement.text(), statement.command()),
{
    reveal_strlit("SELECT archived_at IS NULL FROM organizations WHERE organization_id=$1 FOR UPDATE");
    reveal_strlit("SELECT ");
    reveal_strlit("");
    reveal_strlit("archived_at");
    reveal_strlit(" IS NULL");
    reveal_strlit(" FROM ");
    reveal_strlit("organizations");
    reveal_strlit(" WHERE ");
    reveal_strlit("organization_id");
    reveal_strlit("=");
    reveal_strlit("$");
    reveal_strlit(" FOR UPDATE");
    reveal_with_fuel(spelling::spells, 14);
    reveal_with_fuel(sql::item_words, 2);
    reveal_with_fuel(sql::condition_words, 2);
}

proof fn lemma_read_member_for_addition_reads(statement: Statement<Seq<char>>)
    requires
        statement is ReadMemberForAddition,
    ensures
        sql::reads_as(statement.text(), statement.command()),
{
    reveal_strlit("SELECT membership_id,revision FROM organization_memberships WHERE organization_id=$1 AND subject=$2 AND removed_at IS NULL FOR UPDATE");
    reveal_strlit("SELECT ");
    reveal_strlit("membership_id");
    reveal_strlit(",");
    reveal_strlit("revision");
    reveal_strlit(" FROM ");
    reveal_strlit("organization_memberships");
    reveal_strlit(" WHERE ");
    reveal_strlit("");
    reveal_strlit("organization_id");
    reveal_strlit("=");
    reveal_strlit("$");
    reveal_strlit(" AND ");
    reveal_strlit("subject");
    reveal_strlit("removed_at");
    reveal_strlit(" IS NULL");
    reveal_strlit(" FOR UPDATE");
    reveal_with_fuel(spelling::spells, 24);
    reveal_with_fuel(sql::item_words, 3);
    reveal_with_fuel(sql::condition_words, 4);
}

proof fn lemma_insert_member_reads(statement: Statement<Seq<char>>)
    requires
        statement is InsertMember,
    ensures
        sql::reads_as(statement.text(), statement.command()),
{
    reveal_strlit("INSERT INTO organization_memberships (membership_id,organization_id,subject,is_owner,revision) VALUES ($1,$2,$3,false,1)");
    reveal_strlit("INSERT INTO ");
    reveal_strlit("organization_memberships");
    reveal_strlit(" (");
    reveal_strlit("membership_id");
    reveal_strlit(",");
    reveal_strlit("organization_id");
    reveal_strlit("subject");
    reveal_strlit("is_owner");
    reveal_strlit("revision");
    reveal_strlit(") VALUES (");
    reveal_strlit("$");
    reveal_strlit("false");
    reveal_strlit("1");
    reveal_strlit(")");
    reveal_with_fuel(spelling::spells, 27);
    reveal_with_fuel(sql::column_words, 6);
    reveal_with_fuel(sql::term_words, 6);
}

proof fn lemma_read_member_for_removal_reads(statement: Statement<Seq<char>>)
    requires
        statement is ReadMemberForRemoval,
    ensures
        sql::reads_as(statement.text(), statement.command()),
{
    reveal_strlit("SELECT membership_id,is_owner,revision FROM organization_memberships WHERE organization_id=$1 AND subject=$2 AND removed_at IS NULL FOR UPDATE");
    reveal_strlit("SELECT ");
    reveal_strlit("membership_id");
    reveal_strlit(",");
    reveal_strlit("is_owner");
    reveal_strlit("revision");
    reveal_strlit(" FROM ");
    reveal_strlit("organization_memberships");
    reveal_strlit(" WHERE ");
    reveal_strlit("");
    reveal_strlit("organization_id");
    reveal_strlit("=");
    reveal_strlit("$");
    reveal_strlit(" AND ");
    reveal_strlit("subject");
    reveal_strlit("removed_at");
    reveal_strlit(" IS NULL");
    reveal_strlit(" FOR UPDATE");
    reveal_with_fuel(spelling::spells, 26);
    reveal_with_fuel(sql::item_words, 4);
    reveal_with_fuel(sql::condition_words, 4);
}

proof fn lemma_remove_member_reads(statement: Statement<Seq<char>>)
    requires
        statement is RemoveMember,
    ensures
        sql::reads_as(statement.text(), statement.command()),
{
    reveal_strlit("UPDATE organization_memberships SET removed_at=transaction_timestamp(),updated_at=transaction_timestamp(),revision=$3 WHERE organization_id=$1 AND membership_id=$2 AND removed_at IS NULL");
    reveal_strlit("UPDATE ");
    reveal_strlit("organization_memberships");
    reveal_strlit(" SET ");
    reveal_strlit("removed_at");
    reveal_strlit("=");
    reveal_strlit("transaction_timestamp()");
    reveal_strlit(",");
    reveal_strlit("updated_at");
    reveal_strlit("revision");
    reveal_strlit("$");
    reveal_strlit(" WHERE ");
    reveal_strlit("");
    reveal_strlit("organization_id");
    reveal_strlit(" AND ");
    reveal_strlit("membership_id");
    reveal_strlit(" IS NULL");
    reveal_with_fuel(spelling::spells, 32);
    reveal_with_fuel(sql::assignment_words, 4);
    reveal_with_fuel(sql::condition_words, 4);
}

proof fn lemma_get_organization_reads(statement: Statement<Seq<char>>)
    requires
        statement is GetOrganization,
    ensures
        sql::reads_as(statement.text(), statement.command()),
{
    reveal_strlit("SELECT name,slug,archived_at IS NULL,revision FROM organizations WHERE organization_id=$1");
    reveal_strlit("SELECT ");
    reveal_strlit("name");
    reveal_strlit(",");
    reveal_strlit("slug");
    reveal_strlit("");
    reveal_strlit("archived_at");
    reveal_strlit(" IS NULL");
    reveal_strlit("revision");
    reveal_strlit(" FROM ");
    reveal_strlit("organizations");
    reveal_strlit(" WHERE ");
    reveal_strlit("organization_id");
    reveal_strlit("=");
    reveal_strlit("$");
    reveal_with_fuel(spelling::spells, 19);
    reveal_with_fuel(sql::item_words, 5);
    reveal_with_fuel(sql::condition_words, 2);
}

proof fn lemma_check_membership_reads_from_owner(statement: Statement<Seq<char>>)
    requires
        statement is CheckMembership,
    ensures
        spelling::spells(
            statement.text(),
            272,
            sql::probe_words(
                statement.command()->probes,
                statement.command()->labels,
                2,
                Words::End,
            ),
        ),
{
    reveal_strlit("SELECT EXISTS(SELECT 1 FROM organizations WHERE organization_id=$1 AND archived_at IS NULL) AS organization_exists, COALESCE((SELECT removed_at IS NULL FROM organization_memberships WHERE organization_id=$1 AND subject=$2 ORDER BY created_at DESC LIMIT 1),false) AS active, COALESCE((SELECT is_owner AND removed_at IS NULL FROM organization_memberships WHERE organization_id=$1 AND subject=$2 ORDER BY created_at DESC LIMIT 1),false) AS owner");
    reveal_strlit("COALESCE((SELECT ");
    reveal_strlit("removed_at");
    reveal_strlit(" IS NULL");
    reveal_strlit(" FROM ");
    reveal_strlit("organization_memberships");
    reveal_strlit(" WHERE ");
    reveal_strlit("");
    reveal_strlit("organization_id");
    reveal_strlit("=");
    reveal_strlit("$");
    reveal_strlit(" AND ");
    reveal_strlit("subject");
    reveal_strlit(" ORDER BY ");
    reveal_strlit("created_at");
    reveal_strlit(" DESC LIMIT 1),false)");
    reveal_strlit(" AS ");
    reveal_strlit(", ");
    reveal_strlit("is_owner");
    reveal_strlit("owner");
    reveal_with_fuel(spelling::spells, 34);
    reveal_with_fuel(sql::condition_words, 3);
    reveal_with_fuel(sql::probe_words, 2);
}

proof fn lemma_check_membership_reads_from_active(statement: Statement<Seq<char>>)
    requires
        statement is CheckMembership,
    ensures
        spelling::spells(
            statement.text(),
            114,
            sql::probe_words(
                statement.command()->probes,
                statement.command()->labels,
                1,
                Words::End,
            ),
        ),
{
    lemma_check_membership_reads_from_owner(statement);
    reveal_strlit("SELECT EXISTS(SELECT 1 FROM organizations WHERE organization_id=$1 AND archived_at IS NULL) AS organization_exists, COALESCE((SELECT removed_at IS NULL FROM organization_memberships WHERE organization_id=$1 AND subject=$2 ORDER BY created_at DESC LIMIT 1),false) AS active, COALESCE((SELECT is_owner AND removed_at IS NULL FROM organization_memberships WHERE organization_id=$1 AND subject=$2 ORDER BY created_at DESC LIMIT 1),false) AS owner");
    reveal_strlit("COALESCE((SELECT ");
    reveal_strlit("removed_at");
    reveal_strlit(" IS NULL");
    reveal_strlit(" FROM ");
    reveal_strlit("organization_memberships");
    reveal_strlit(" WHERE ");
    reveal_strlit("");
    reveal_strlit("organization_id");
    reveal_strlit("=");
    reveal_strlit("$");
    reveal_strlit(" AND ");
    reveal_strlit("subject");
    reveal_strlit(" ORDER BY ");
    reveal_strlit("created_at");
    reveal_strlit(" DESC LIMIT 1),false)");
    reveal_strlit(" AS ");
    reveal_strlit(", ");
    reveal_strlit("active");
    reveal_with_fuel(spelling::spells, 32);
    reveal_with_fuel(sql::condition_words, 3);
}

proof fn lemma_check_membership_reads(statement: Statement<Seq<char>>)
    requires
        statement is CheckMembership,
    ensures
        sql::reads_as(statement.text(), statement.command()),
{
    lemma_check_membership_reads_from_active(statement);
    reveal_strlit("SELECT EXISTS(SELECT 1 FROM organizations WHERE organization_id=$1 AND archived_at IS NULL) AS organization_exists, COALESCE((SELECT removed_at IS NULL FROM organization_memberships WHERE organization_id=$1 AND subject=$2 ORDER BY created_at DESC LIMIT 1),false) AS active, COALESCE((SELECT is_owner AND removed_at IS NULL FROM organization_memberships WHERE organization_id=$1 AND subject=$2 ORDER BY created_at DESC LIMIT 1),false) AS owner");
    reveal_strlit("SELECT ");
    reveal_strlit("EXISTS(SELECT 1 FROM ");
    reveal_strlit("organizations");
    reveal_strlit(" WHERE ");
    reveal_strlit("");
    reveal_strlit("organization_id");
    reveal_strlit("=");
    reveal_strlit("$");
    reveal_strlit(" AND ");
    reveal_strlit("archived_at");
    reveal_strlit(" IS NULL");
    reveal_strlit(")");
    reveal_strlit(" AS ");
    reveal_strlit("organization_exists");
    reveal_with_fuel(spelling::spells, 20);
    reveal_with_fuel(sql::condition_words, 3);
}

/// The text of each statement is the statement's command.
pub proof fn lemma_statement_reads(statement: Statement<Seq<char>>)
    ensures
        sql::reads_as(statement.text(), statement.command()),
{
    match statement {
        Statement::ReserveCreation { .. } => lemma_reserve_creation_reads(statement),
        Statement::ReadCreation { .. } => lemma_read_creation_reads(statement),
        Statement::InsertOrganization { .. } => lemma_insert_organization_reads(statement),
        Statement::InsertOwner { .. } => lemma_insert_owner_reads(statement),
        Statement::ReserveCommand { .. } => lemma_reserve_command_reads(statement),
        Statement::ReadCommand { .. } => lemma_read_command_reads(statement),
        Statement::CompleteCommand { .. } => lemma_complete_command_reads(statement),
        Statement::LockOrganization { .. } => lemma_lock_organization_reads(statement),
        Statement::ReadMemberForAddition { .. } => lemma_read_member_for_addition_reads(statement),
        Statement::InsertMember { .. } => lemma_insert_member_reads(statement),
        Statement::ReadMemberForRemoval { .. } => lemma_read_member_for_removal_reads(statement),
        Statement::RemoveMember { .. } => lemma_remove_member_reads(statement),
        Statement::GetOrganization { .. } => lemma_get_organization_reads(statement),
        Statement::CheckMembership { .. } => lemma_check_membership_reads(statement),
    }
}

} // verus!
