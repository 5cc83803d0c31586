//! The owned schema and its migrations.

use lenso_organization::schema::{migrations, module_schema_plan, schema_plan};

#[test]
fn separation_fails_closed_after_owner_projection_and_before_role_drop() {
    let migration = migrations()[1].sql;
    let projection = migration
        .find("UPDATE organization_memberships")
        .expect("owner facts must be projected from the legacy role");
    let invariant = migration
        .find("active organization has no active owner")
        .expect("migration must reject an active Organization without an active owner");
    let destructive_drop = migration
        .find("DROP TABLE organization_roles")
        .expect("legacy role storage must be retired");

    assert!(projection < invariant);
    assert!(invariant < destructive_drop);
    assert!(migration.contains("membership.removed_at IS NULL"));
    assert!(migration.contains("membership.is_owner"));
}

#[test]
fn creation_idempotency_is_caller_scoped_and_keeps_result_references() {
    let migration = migrations()[2].sql;

    assert!(migration.contains("PRIMARY KEY (caller_instance, idempotency_key)"));
    assert!(migration.contains("REFERENCES organizations(organization_id)"));
    assert!(migration.contains("REFERENCES organization_memberships(membership_id)"));
    assert!(migration.contains("DEFERRABLE INITIALLY DEFERRED"));
}

#[test]
fn history_has_three_named_steps() {
    let history = migrations();
    let steps: Vec<(u64, &str)> = history
        .iter()
        .map(|migration| (migration.version, migration.name))
        .collect();
    assert_eq!(
        steps,
        [
            (1, "create-organizations"),
            (2, "separate-access-control"),
            (3, "add-creation-idempotency"),
        ]
    );
    assert!(history[0].sql.contains("organizations_active_slug_key"));
}

#[test]
fn plans_are_for_names_that_can_be_owned() {
    let plan = schema_plan("organization_2").unwrap();
    assert_eq!(plan.schema(), "organization_2");
    assert_eq!(plan.current_version(), 3);
    let module_plan = module_schema_plan("organization").unwrap();
    assert_eq!(module_plan.schema(), "organization");
    assert_eq!(module_plan.current_version(), 1);

    let longest = "a".repeat(63);
    assert_eq!(schema_plan(&longest).unwrap().schema(), longest);
    let too_long = "a".repeat(64);
    for refused in [
        "",
        "Organization",
        "2organization",
        "_organization",
        "organization-2",
        "public",
        "information_schema",
        "pg_organization",
        "organizati\u{f6}n",
        too_long.as_str(),
    ] {
        let error = schema_plan(refused).unwrap_err();
        assert_eq!(
            error.message(),
            format!("invalid owned schema name `{refused}`")
        );
        assert_eq!(module_schema_plan(refused).unwrap_err().schema, refused);
    }
    assert!(schema_plan("publicly").is_ok());
    assert!(schema_plan("pgorganization").is_ok());
}
