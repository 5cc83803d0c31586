//! The Module's configuration, creations and permission checks.

use std::collections::HashMap;

use lenso_organization::failure::{OrganizationError, RuntimeFailure};
use lenso_organization::ids::random_id;
use lenso_organization::names::valid_slug;
use lenso_organization::postgres_module::config::{
    OrganizationConfig, OrganizationConfigError, PACKAGE_ID,
};
use lenso_organization::postgres_module::contracts::{
    CheckPermissionError, CheckPermissionRequest, CheckPermissionResponse,
    CreateOrganizationError, CreateOrganizationRequest, CreateOrganizationResponse,
};
use lenso_organization::postgres_module::creation::{
    creation_from, creation_with_ids, CreationStage,
};
use lenso_organization::postgres_module::lifecycle::{connection_failure, OrganizationLifecycle};
use lenso_organization::postgres_module::provider::{
    access_answer, OrganizationFactory, OrganizationProvider,
};
use lenso_organization::postgres_module::statements::{
    owner_permission_list, AccessRow, Action, Parameter, Reply, Statement,
};
use lenso_organization::preparation::{PrepareFailure, SecretFailure};
use lenso_organization::transaction::Progress;

struct Membership {
    organization_id: String,
    subject: String,
    role_id: String,
}

#[derive(Default)]
struct Tables {
    slugs: HashMap<String, String>,
    roles: HashMap<String, Vec<String>>,
    memberships: Vec<Membership>,
}

impl Tables {
    fn execute(&mut self, statement: &Statement) -> Reply {
        let parameters = statement.parameters();
        match statement {
            Statement::InsertOrganization {
                organization_id,
                slug,
                ..
            } => {
                if self.slugs.values().any(|taken| taken == slug) {
                    return Reply::Failed {
                        constraint: Some("organizations_active_slug_key".to_owned()),
                    };
                }
                self.slugs.insert(organization_id.clone(), slug.clone());
                Reply::RowsAffected(1)
            }
            Statement::InsertOwnerRole { role_id, .. } => match &parameters[2] {
                Parameter::Texts(permissions) => {
                    self.roles.insert(role_id.clone(), permissions.clone());
                    Reply::RowsAffected(1)
                }
                Parameter::Text(_) => Reply::Failed { constraint: None },
            },
            Statement::InsertMembership {
                organization_id,
                subject,
                role_id,
                ..
            } => {
                self.memberships.push(Membership {
                    organization_id: organization_id.clone(),
                    subject: subject.clone(),
                    role_id: role_id.clone(),
                });
                Reply::RowsAffected(1)
            }
            Statement::CheckPermission {
                organization_id,
                subject,
                permission,
            } => Reply::Access(AccessRow {
                organization_exists: Some(self.slugs.contains_key(organization_id)),
                allowed: Some(self.memberships.iter().any(|membership| {
                    &membership.organization_id == organization_id
                        && &membership.subject == subject
                        && self.roles[&membership.role_id].contains(permission)
                })),
            }),
        }
    }
}

fn provider() -> OrganizationProvider {
    OrganizationProvider {
        admin_callers: vec!["business-admin".to_owned()],
    }
}

fn create(
    tables: &mut Tables,
    request: CreateOrganizationRequest,
) -> Result<Result<CreateOrganizationResponse, CreateOrganizationError>, RuntimeFailure> {
    let mut progress = provider().create_organization(Some("business-admin"), true, request);
    loop {
        match progress {
            Progress::Continue(creation) => {
                let reply = match creation.action() {
                    Action::Begin | Action::Commit => Reply::Done,
                    Action::Execute(statement) => tables.execute(&statement),
                };
                progress = creation.advance(reply);
            }
            Progress::Finish(outcome) => return outcome,
        }
    }
}

fn check(
    tables: &mut Tables,
    organization_id: &str,
    subject: &str,
    permission: &str,
) -> Result<Result<CheckPermissionResponse, CheckPermissionError>, RuntimeFailure> {
    let request = CheckPermissionRequest {
        organization_id: organization_id.to_owned(),
        permission: permission.to_owned(),
        subject: subject.to_owned(),
    };
    match provider().check_permission(true, request) {
        Progress::Continue(statement) => access_answer(tables.execute(&statement)),
        Progress::Finish(outcome) => outcome,
    }
}

fn request(name: &str, owner: &str, slug: &str) -> CreateOrganizationRequest {
    CreateOrganizationRequest {
        name: name.to_owned(),
        owner_subject: owner.to_owned(),
        slug: slug.to_owned(),
    }
}

fn module_failure(detail: &str) -> RuntimeFailure {
    RuntimeFailure::ModuleFailure {
        detail: detail.to_owned(),
    }
}

#[test]
fn lib_configuration_rejects_ambient_admin_authority() {
    let error =
        OrganizationConfig::new("organization", "organization/database", Vec::new()).unwrap_err();
    assert_eq!(error, OrganizationConfigError::InvalidAdminCallers);
}

#[test]
fn lib_slugs_are_stable_and_narrow() {
    assert!(valid_slug("acme-platform"));
    assert!(!valid_slug("Acme Platform"));
    assert!(!valid_slug("-acme"));
}

#[test]
fn lib_generated_ids_do_not_repeat() {
    assert_ne!(random_id("org_").unwrap(), random_id("org_").unwrap());
}

#[test]
fn failed_draw_is_the_failure_of_the_creation() {
    let drawn = |id: &str| -> Result<String, OrganizationError> { Ok(id.to_owned()) };
    let failed: Result<String, OrganizationError> = Err(OrganizationError::Random);
    let create = |organization_id, owner_role_id, owner_membership_id| {
        creation_from(
            request(" Acme ", "usr_owner", "acme"),
            organization_id,
            owner_role_id,
            owner_membership_id,
        )
    };
    assert_eq!(
        create(drawn("org_1"), drawn("role_1"), drawn("member_1")),
        Ok(creation_with_ids(
            request(" Acme ", "usr_owner", "acme"),
            "org_1".to_owned(),
            "role_1".to_owned(),
            "member_1".to_owned(),
        ))
    );
    let failure = module_failure("random source unavailable");
    assert_eq!(
        create(failed.clone(), drawn("role_1"), drawn("member_1")),
        Err(failure.clone())
    );
    assert_eq!(
        create(drawn("org_1"), failed.clone(), drawn("member_1")),
        Err(failure.clone())
    );
    assert_eq!(
        create(drawn("org_1"), drawn("role_1"), failed),
        Err(failure)
    );
}

#[test]
fn lib_forbidden_admin_is_a_domain_error_before_storage_access() {
    let result = provider().create_organization(
        Some("untrusted"),
        false,
        request("Acme", "usr_owner", "acme"),
    );
    assert_eq!(
        result,
        Progress::Finish(Ok(Err(CreateOrganizationError::Forbidden)))
    );
}

#[test]
fn unprepared_access_reports_runtime_failure() {
    let result = provider().check_permission(
        false,
        CheckPermissionRequest {
            organization_id: "org_missing".to_owned(),
            permission: "organization.read".to_owned(),
            subject: "usr_owner".to_owned(),
        },
    );
    assert!(matches!(
        result,
        Progress::Finish(Err(RuntimeFailure::ModuleFailure { .. }))
    ));
}

#[test]
fn create_then_check_permission_preserves_transaction_and_domain_errors() {
    let mut tables = Tables::default();
    let created = create(&mut tables, request("Acme", "usr_owner", "acme"))
        .unwrap()
        .unwrap();
    let access = check(
        &mut tables,
        &created.organization_id,
        "usr_owner",
        "organization.members.manage",
    )
    .unwrap()
    .unwrap();
    assert!(access.allowed);

    let duplicate = create(&mut tables, request("Another Acme", "usr_other", "acme")).unwrap();
    assert_eq!(duplicate, Err(CreateOrganizationError::SlugConflict));
}

#[test]
fn owner_holds_the_owner_permissions_and_nobody_else_does() {
    let mut tables = Tables::default();
    let created = create(&mut tables, request("Acme", "usr_owner", "acme"))
        .unwrap()
        .unwrap();
    let permissions = owner_permission_list();
    assert_eq!(
        permissions,
        [
            "organization.read",
            "organization.manage",
            "organization.members.manage",
            "organization.roles.manage",
            "organization.invitations.manage",
        ]
    );
    for permission in &permissions {
        assert_eq!(
            check(&mut tables, &created.organization_id, "usr_owner", permission),
            Ok(Ok(CheckPermissionResponse { allowed: true }))
        );
        assert_eq!(
            check(&mut tables, &created.organization_id, "usr_other", permission),
            Ok(Ok(CheckPermissionResponse { allowed: false }))
        );
    }
    assert_eq!(
        check(
            &mut tables,
            &created.organization_id,
            "usr_owner",
            "organization.delete"
        ),
        Ok(Ok(CheckPermissionResponse { allowed: false }))
    );
    assert_eq!(
        check(&mut tables, "org_missing", "usr_owner", "organization.read"),
        Ok(Err(CheckPermissionError::OrganizationNotFound))
    );
}

#[test]
fn malformed_requests_are_refused_before_preparation_is_asked_for() {
    for malformed in [
        request("  ", "usr_owner", "acme"),
        request("Acme", "usr owner", "acme"),
        request("Acme", "usr_owner", "acme-"),
    ] {
        assert_eq!(
            provider().create_organization(Some("business-admin"), false, malformed),
            Progress::Finish(Ok(Err(CreateOrganizationError::InvalidOrganization)))
        );
    }
    assert_eq!(
        provider().create_organization(
            Some("business-admin"),
            false,
            request("Acme", "usr_owner", "acme")
        ),
        Progress::Finish(Err(module_failure("Organization Module is not prepared")))
    );
    for (organization_id, permission, subject) in [
        ("", "organization.read", "usr_owner"),
        ("org_acme", "organization", "usr_owner"),
        ("org_acme", "organization.read", ""),
    ] {
        assert_eq!(
            provider().check_permission(
                false,
                CheckPermissionRequest {
                    organization_id: organization_id.to_owned(),
                    permission: permission.to_owned(),
                    subject: subject.to_owned(),
                }
            ),
            Progress::Finish(Ok(Err(CheckPermissionError::InvalidRequest)))
        );
    }
    assert!(provider().admin_authorized(Some("business-admin")));
    assert!(!provider().admin_authorized(None));
}

#[test]
fn module_failures_name_the_request() {
    let operations = [
        (CreationStage::Begin, "begin organization creation"),
        (CreationStage::InsertOrganization, "insert organization"),
        (CreationStage::InsertOwnerRole, "insert owner role"),
        (CreationStage::InsertOwner, "insert owner membership"),
        (CreationStage::Commit, "commit organization creation"),
    ];
    for (stage, operation) in operations {
        let mut creation = creation_with_ids(
            request(" Acme ", "usr_owner", "acme"),
            "org_1".to_owned(),
            "role_1".to_owned(),
            "member_1".to_owned(),
        );
        assert_eq!(creation.name, "Acme");
        creation.stage = stage;
        assert_eq!(
            creation.advance(Reply::Failed { constraint: None }),
            Progress::Finish(Err(module_failure(&format!(
                "PostgreSQL operation `{operation}` failed"
            ))))
        );
    }
    assert_eq!(
        access_answer(Reply::Failed { constraint: None }),
        Err(module_failure(
            "PostgreSQL operation `check organization permission` failed"
        ))
    );
    assert_eq!(
        access_answer(Reply::Access(AccessRow {
            organization_exists: None,
            allowed: None
        })),
        Err(module_failure(
            "PostgreSQL operation `decode organization existence` failed"
        ))
    );
    assert_eq!(
        access_answer(Reply::Access(AccessRow {
            organization_exists: Some(true),
            allowed: None
        })),
        Err(module_failure(
            "PostgreSQL operation `decode organization permission` failed"
        ))
    );
}

#[test]
fn owner_membership_is_bound_to_the_owner_role() {
    let statement = Statement::InsertMembership {
        membership_id: "member_1".to_owned(),
        organization_id: "org_1".to_owned(),
        subject: "usr_owner".to_owned(),
        role_id: "role_1".to_owned(),
    };
    assert_eq!(
        statement.sql(),
        "INSERT INTO organization_memberships (membership_id,organization_id,subject,role_id) VALUES ($1,$2,$3,$4)"
    );
    assert_eq!(
        statement.parameters(),
        ["member_1", "org_1", "usr_owner", "role_1"].map(|text| Parameter::Text(text.to_owned()))
    );
}

#[test]
fn module_factory_and_lifecycle_take_each_answer() {
    let config = OrganizationConfig::new(
        "organization",
        "organization/database",
        vec!["business-admin".to_owned()],
    )
    .unwrap();
    let factory = OrganizationFactory;
    assert_eq!(factory.package_id(), PACKAGE_ID);
    let (provider, kept) = factory.instantiate("default", Ok(config.clone())).unwrap();
    assert_eq!(provider.admin_callers, ["business-admin"]);
    assert_eq!(kept, config);
    assert_eq!(
        factory.instantiate("module", Ok(config.clone())),
        Err(RuntimeFailure::InvalidResolvedPlan {
            detail: "unsupported Organization entrypoint `module`".to_owned()
        })
    );
    assert_eq!(
        factory.instantiate("default", Err("EOF".to_owned())),
        Err(RuntimeFailure::InvalidResolvedPlan {
            detail: "Organization configuration is invalid: EOF".to_owned()
        })
    );
    let mut invalid = config.clone();
    invalid.admin_callers = Vec::new();
    assert_eq!(
        factory.instantiate("default", Ok(invalid)),
        Err(RuntimeFailure::InvalidResolvedPlan {
            detail: "at least one valid Organization Admin caller is required".to_owned()
        })
    );
    assert_eq!(
        OrganizationConfig::new("public", "organization/database", Vec::new()),
        Err(OrganizationConfigError::InvalidSchema)
    );
    assert_eq!(
        OrganizationConfig::new("organization", "", Vec::new()),
        Err(OrganizationConfigError::InvalidSecretReference)
    );
    let lifecycle = OrganizationLifecycle { config };
    assert_eq!(lifecycle.secret_reference(), "organization/database");
    let resolved: Result<(), SecretFailure<u8>> = Ok(());
    let plan = lifecycle.plan_after_secret(resolved).unwrap();
    assert_eq!(plan.schema(), "organization");
    assert_eq!(plan.current_version(), 1);
    let rejected: Result<(), SecretFailure<u8>> = Err(SecretFailure::Rejected);
    assert_eq!(
        lifecycle.plan_after_secret(rejected).unwrap_err(),
        PrepareFailure::Own(module_failure(
            "database URL secret `organization/database` was rejected"
        ))
    );
    let failed: Result<(), SecretFailure<u8>> = Err(SecretFailure::Runtime(3));
    assert_eq!(
        lifecycle.plan_after_secret(failed).unwrap_err(),
        PrepareFailure::Passed(3)
    );
    assert_eq!(
        connection_failure("connection refused".to_owned()),
        module_failure("connection refused")
    );
}
