//! The Plugin's single decisions.

use lenso_organization::contracts::{
    AddMemberError, AddMemberRequest, CheckMembershipError, CheckMembershipRequest,
    CreateOrganizationError, CreateOrganizationRequest, GetOrganizationError,
    GetOrganizationRequest, RemoveMemberError, RemoveMemberRequest,
};
use lenso_organization::failure::{OrganizationError, RuntimeFailure};
use lenso_organization::ids::{identifier, identifier_from, random_id};
use lenso_organization::names::valid_slug;
use lenso_organization::postgres_plugin::config::{
    OrganizationConfig, OrganizationConfigError, PACKAGE_ID,
};
use lenso_organization::postgres_plugin::creation::{
    creation_from, creation_with_ids, read_creation_replay, CreationStage,
};
use lenso_organization::postgres_plugin::lifecycle::{connection_failure, OrganizationLifecycle};
use lenso_organization::postgres_plugin::membership::{
    addition_from, addition_with_id, next_membership_revision, read_membership_command_replay,
    AdditionStage, MembershipCommandReplay, Removal, RemovalStage,
};
use lenso_organization::postgres_plugin::provider::{OrganizationFactory, OrganizationProvider};
use lenso_organization::postgres_plugin::queries::{
    directory_answer, directory_statement, standing_answer, standing_statement,
};
use lenso_organization::postgres_plugin::statements::{
    Action, CommandRow, CreationRow, DirectoryRow, MemberRow, OwnedMemberRow, Parameter, Reply,
    StandingRow, Statement,
};
use lenso_organization::preparation::{PrepareFailure, SecretFailure};
use lenso_organization::transaction::{started, Progress};

fn provider() -> OrganizationProvider {
    OrganizationProvider {
        admin_callers: vec!["business-admin".to_owned()],
        directory_callers: vec!["directory-consumer".to_owned()],
        membership_admin_callers: vec!["membership-admin".to_owned()],
    }
}

fn plugin_failure(detail: &str) -> RuntimeFailure {
    RuntimeFailure::PluginFailure {
        detail: detail.to_owned(),
    }
}

fn create_request() -> CreateOrganizationRequest {
    CreateOrganizationRequest {
        idempotency_key: "create-acme".to_owned(),
        name: " Acme ".to_owned(),
        owner_subject: "usr_owner".to_owned(),
        slug: "acme".to_owned(),
    }
}

#[test]
fn configuration_rejects_ambient_admin_authority() {
    let error =
        OrganizationConfig::new("organization", "organization/database", Vec::new()).unwrap_err();
    assert_eq!(error, OrganizationConfigError::InvalidAdminCallers);
}

#[test]
fn configuration_rejects_invalid_directory_caller_keys() {
    let error = OrganizationConfig::new(
        "organization",
        "organization/database",
        vec!["business-admin".to_owned()],
    )
    .unwrap()
    .with_directory_callers(vec!["invalid caller".to_owned()])
    .unwrap_err();
    assert_eq!(error, OrganizationConfigError::InvalidDirectoryCallers);
}

#[test]
fn configuration_names_the_first_broken_rule() {
    let callers = vec!["business-admin".to_owned()];
    assert_eq!(
        OrganizationConfig::new("public", "organization/database", callers.clone()),
        Err(OrganizationConfigError::InvalidSchema)
    );
    assert_eq!(
        OrganizationConfig::new("pg_organization", "../database", Vec::new()),
        Err(OrganizationConfigError::InvalidSchema)
    );
    assert_eq!(
        OrganizationConfig::new("organization", "../database", callers.clone()),
        Err(OrganizationConfigError::InvalidSecretReference)
    );
    assert_eq!(
        OrganizationConfig::new(
            "organization",
            "organization/database",
            vec!["business admin".to_owned()]
        ),
        Err(OrganizationConfigError::InvalidAdminCallers)
    );
    let config =
        OrganizationConfig::new("organization", "organization/database", callers).unwrap();
    assert_eq!(
        config
            .clone()
            .with_membership_admin_callers(vec![String::new()]),
        Err(OrganizationConfigError::InvalidMembershipAdminCallers)
    );
    let config = config
        .with_directory_callers(vec!["directory-consumer".to_owned()])
        .unwrap()
        .with_membership_admin_callers(vec!["membership-admin".to_owned()])
        .unwrap();
    assert_eq!(config.schema, "organization");
    assert_eq!(config.database_url_secret, "organization/database");
    assert_eq!(config.admin_callers, ["business-admin"]);
    assert_eq!(config.directory_callers, ["directory-consumer"]);
    assert_eq!(config.membership_admin_callers, ["membership-admin"]);
    assert_eq!(config.validate(), Ok(()));
}

#[test]
fn configuration_errors_have_messages() {
    let messages = [
        (
            OrganizationConfigError::InvalidSchema,
            "invalid owned PostgreSQL schema",
        ),
        (
            OrganizationConfigError::InvalidSecretReference,
            "invalid database URL secret reference",
        ),
        (
            OrganizationConfigError::InvalidAdminCallers,
            "at least one valid Organization Admin caller is required",
        ),
        (
            OrganizationConfigError::InvalidDirectoryCallers,
            "every Organization Directory caller must be a valid Instance key",
        ),
        (
            OrganizationConfigError::InvalidMembershipAdminCallers,
            "every Organization Membership Admin caller must be a valid Instance key",
        ),
    ];
    for (error, message) in messages {
        assert_eq!(error.message(), message);
    }
}

#[test]
fn slugs_are_stable_and_narrow() {
    assert!(valid_slug("acme-platform"));
    assert!(!valid_slug("Acme Platform"));
    assert!(!valid_slug("-acme"));
}

#[test]
fn generated_ids_do_not_repeat() {
    assert_ne!(random_id("org_").unwrap(), random_id("org_").unwrap());
}

#[test]
fn generated_ids_are_a_prefix_and_lower_case_digits() {
    let id = random_id("org_").unwrap();
    assert_eq!(id.len(), 40);
    assert!(id.starts_with("org_"));
    assert!(id[4..]
        .bytes()
        .all(|byte| byte.is_ascii_digit() || (b'a'..=b'f').contains(&byte)));
    assert_ne!(
        id,
        "org_000000000000000000000000000000000000",
        "the random source fills the bytes"
    );
    assert_eq!(identifier("member_", &[0, 15, 16, 171, 255]), "member_000f10abff");
}

#[test]
fn identifier_is_made_of_the_bytes_that_were_drawn() {
    let mut bytes = [0_u8; 18];
    assert_eq!(
        identifier_from("org_", Ok(bytes)).unwrap(),
        "org_000000000000000000000000000000000000"
    );
    bytes[0] = 0x0a;
    bytes[17] = 0xf0;
    let id = identifier_from("org_", Ok(bytes)).unwrap();
    assert_eq!(id, "org_0a00000000000000000000000000000000f0");
    assert_eq!(id.len(), "org_".len() + 36);
    bytes[17] = 0xf1;
    assert_ne!(identifier_from("org_", Ok(bytes)).unwrap(), id);
    assert_eq!(
        identifier_from("org_", Err(getrandom::Error::UNSUPPORTED)),
        Err(OrganizationError::Random)
    );
}

#[test]
fn failed_draw_is_the_failure_of_the_operation() {
    let drawn = |id: &str| -> Result<String, OrganizationError> { Ok(id.to_owned()) };
    let failed: Result<String, OrganizationError> = Err(OrganizationError::Random);
    let create = |organization_id, owner_membership_id| {
        creation_from(
            "business-admin".to_owned(),
            create_request(),
            "Acme".to_owned(),
            organization_id,
            owner_membership_id,
        )
    };
    assert_eq!(
        create(drawn("org_1"), drawn("member_1")),
        Ok(creation_with_ids(
            "business-admin".to_owned(),
            create_request(),
            "Acme".to_owned(),
            "org_1".to_owned(),
            "member_1".to_owned(),
        ))
    );
    let failure = plugin_failure("random source unavailable");
    assert_eq!(create(failed.clone(), drawn("member_1")), Err(failure.clone()));
    assert_eq!(create(drawn("org_1"), failed.clone()), Err(failure.clone()));
    let request = AddMemberRequest {
        idempotency_key: "add".to_owned(),
        organization_id: "org_1".to_owned(),
        subject: "usr_member".to_owned(),
    };
    assert_eq!(
        addition_from("membership-admin".to_owned(), request.clone(), drawn("member_2")),
        Ok(addition_with_id(
            "membership-admin".to_owned(),
            request.clone(),
            "member_2".to_owned(),
        ))
    );
    assert_eq!(
        addition_from("membership-admin".to_owned(), request, failed),
        Err(failure.clone())
    );
    assert_eq!(
        started::<u8, ()>(Err(failure.clone())),
        Progress::Finish(Err(failure))
    );
    assert_eq!(started::<u8, ()>(Ok(7)), Progress::Continue(7));
}

#[test]
fn forbidden_admin_is_a_domain_error_before_storage_access() {
    let provider = OrganizationProvider {
        admin_callers: vec!["business-admin".to_owned()],
        directory_callers: Vec::new(),
        membership_admin_callers: Vec::new(),
    };
    let result = provider.create_organization(
        Some("untrusted"),
        false,
        CreateOrganizationRequest {
            idempotency_key: "forbidden-create".to_owned(),
            name: "Acme".to_owned(),
            owner_subject: "usr_owner".to_owned(),
            slug: "acme".to_owned(),
        },
    );
    assert_eq!(
        result,
        Progress::Finish(Ok(Err(CreateOrganizationError::Forbidden)))
    );
}

#[test]
fn invalid_idempotency_key_is_rejected_before_storage_access() {
    let provider = OrganizationProvider {
        admin_callers: vec!["business-admin".to_owned()],
        directory_callers: Vec::new(),
        membership_admin_callers: Vec::new(),
    };
    let result = provider.create_organization(
        Some("business-admin"),
        false,
        CreateOrganizationRequest {
            idempotency_key: String::new(),
            name: "Acme".to_owned(),
            owner_subject: "usr_owner".to_owned(),
            slug: "acme".to_owned(),
        },
    );
    assert_eq!(
        result,
        Progress::Finish(Ok(Err(CreateOrganizationError::InvalidOrganization)))
    );
}

#[test]
fn forbidden_membership_admin_is_a_domain_error_before_storage_access() {
    let provider = OrganizationProvider {
        admin_callers: vec!["business-admin".to_owned()],
        directory_callers: Vec::new(),
        membership_admin_callers: vec!["membership-admin".to_owned()],
    };
    let add = provider.add_member(
        Some("untrusted"),
        false,
        AddMemberRequest {
            idempotency_key: "add-member".to_owned(),
            organization_id: "org_acme".to_owned(),
            subject: "usr_member".to_owned(),
        },
    );
    assert_eq!(add, Progress::Finish(Ok(Err(AddMemberError::Forbidden))));

    let remove = provider.remove_member(
        Some("untrusted"),
        false,
        RemoveMemberRequest {
            idempotency_key: "remove-member".to_owned(),
            organization_id: "org_acme".to_owned(),
            subject: "usr_member".to_owned(),
        },
    );
    assert_eq!(
        remove,
        Progress::Finish(Ok(Err(RemoveMemberError::Forbidden)))
    );
}

#[test]
fn invalid_membership_admin_request_is_rejected_before_storage_access() {
    let provider = OrganizationProvider {
        admin_callers: vec!["business-admin".to_owned()],
        directory_callers: Vec::new(),
        membership_admin_callers: vec!["membership-admin".to_owned()],
    };
    let add = provider.add_member(
        Some("membership-admin"),
        false,
        AddMemberRequest {
            idempotency_key: String::new(),
            organization_id: "org_acme".to_owned(),
            subject: "usr_member".to_owned(),
        },
    );
    assert_eq!(
        add,
        Progress::Finish(Ok(Err(AddMemberError::InvalidRequest)))
    );

    let remove = provider.remove_member(
        Some("membership-admin"),
        false,
        RemoveMemberRequest {
            idempotency_key: "remove-member".to_owned(),
            organization_id: "org_acme".to_owned(),
            subject: "invalid subject".to_owned(),
        },
    );
    assert_eq!(
        remove,
        Progress::Finish(Ok(Err(RemoveMemberError::InvalidRequest)))
    );
}

#[test]
fn directory_authorization_and_validation_happen_before_storage_access() {
    let provider = OrganizationProvider {
        admin_callers: vec!["business-admin".to_owned()],
        directory_callers: vec!["directory-consumer".to_owned()],
        membership_admin_callers: Vec::new(),
    };
    let request = GetOrganizationRequest {
        organization_id: "org_acme".to_owned(),
    };
    let forbidden = provider.get_organization(Some("untrusted"), false, &request);
    assert_eq!(
        forbidden,
        Progress::Finish(Ok(Err(GetOrganizationError::Forbidden)))
    );

    let invalid = provider.get_organization(
        Some("directory-consumer"),
        false,
        &GetOrganizationRequest {
            organization_id: String::new(),
        },
    );
    assert_eq!(
        invalid,
        Progress::Finish(Ok(Err(GetOrganizationError::InvalidRequest)))
    );
}

#[test]
fn unprepared_membership_reports_runtime_failure() {
    let provider = OrganizationProvider {
        admin_callers: vec!["business-admin".to_owned()],
        directory_callers: Vec::new(),
        membership_admin_callers: Vec::new(),
    };
    let result = provider.check_membership(
        false,
        &CheckMembershipRequest {
            organization_id: "org_missing".to_owned(),
            subject: "usr_owner".to_owned(),
        },
    );
    assert!(matches!(
        result,
        Progress::Finish(Err(RuntimeFailure::PluginFailure { .. }))
    ));
}

#[test]
fn unprepared_plugin_says_so_after_admission() {
    let unprepared = plugin_failure("Organization Plugin is not prepared");
    let provider = provider();
    assert_eq!(
        provider.create_organization(Some("business-admin"), false, create_request()),
        Progress::Finish(Err(unprepared.clone()))
    );
    assert_eq!(
        provider.add_member(
            Some("membership-admin"),
            false,
            AddMemberRequest {
                idempotency_key: "add".to_owned(),
                organization_id: "org_acme".to_owned(),
                subject: "usr_member".to_owned(),
            }
        ),
        Progress::Finish(Err(unprepared.clone()))
    );
    assert_eq!(
        provider.remove_member(
            Some("membership-admin"),
            false,
            RemoveMemberRequest {
                idempotency_key: "remove".to_owned(),
                organization_id: "org_acme".to_owned(),
                subject: "usr_member".to_owned(),
            }
        ),
        Progress::Finish(Err(unprepared.clone()))
    );
    assert_eq!(
        provider.get_organization(
            Some("directory-consumer"),
            false,
            &GetOrganizationRequest {
                organization_id: "org_acme".to_owned()
            }
        ),
        Progress::Finish(Err(unprepared))
    );
}

#[test]
fn caller_without_a_name_is_not_admitted() {
    let provider = provider();
    assert_eq!(provider.authorized_admin_caller(None), None);
    assert_eq!(
        provider.authorized_admin_caller(Some("business-admin")),
        Some("business-admin")
    );
    assert_eq!(
        provider.authorized_admin_caller(Some("membership-admin")),
        None
    );
    assert_eq!(
        provider.authorized_membership_admin_caller(Some("membership-admin")),
        Some("membership-admin")
    );
    assert_eq!(
        provider.authorized_membership_admin_caller(Some("business-admin")),
        None
    );
    assert_eq!(
        provider.authorized_directory_caller(Some("directory-consumer")),
        Some("directory-consumer")
    );
    assert_eq!(provider.authorized_directory_caller(Some("directory")), None);
}

#[test]
fn admitted_creation_begins_with_new_identifiers() {
    let progress =
        provider().create_organization(Some("business-admin"), true, create_request());
    match progress {
        Progress::Continue(creation) => {
            assert_eq!(creation.caller_instance, "business-admin");
            assert_eq!(creation.idempotency_key, "create-acme");
            assert_eq!(creation.name, "Acme");
            assert_eq!(creation.slug, "acme");
            assert_eq!(creation.owner_subject, "usr_owner");
            assert!(creation.organization_id.starts_with("org_"));
            assert!(creation.owner_membership_id.starts_with("member_"));
            assert_eq!(creation.stage, CreationStage::Begin);
        }
        Progress::Finish(outcome) => panic!("{outcome:?}"),
    }
}

#[test]
fn membership_checks_need_no_admission() {
    let request = CheckMembershipRequest {
        organization_id: "org_acme".to_owned(),
        subject: "usr_member".to_owned(),
    };
    assert_eq!(
        provider().check_membership(true, &request),
        Progress::Continue(standing_statement(&request))
    );
    assert_eq!(
        provider().check_membership(
            true,
            &CheckMembershipRequest {
                organization_id: "org acme".to_owned(),
                subject: "usr_member".to_owned(),
            }
        ),
        Progress::Finish(Ok(Err(CheckMembershipError::InvalidRequest)))
    );
    assert_eq!(
        provider().check_membership(
            true,
            &CheckMembershipRequest {
                organization_id: "org_acme".to_owned(),
                subject: String::new(),
            }
        ),
        Progress::Finish(Ok(Err(CheckMembershipError::InvalidRequest)))
    );
}

#[test]
fn creation_goes_through_its_requests_in_order() {
    let creation = creation_with_ids(
        "business-admin".to_owned(),
        create_request(),
        "Acme".to_owned(),
        "org_1".to_owned(),
        "member_1".to_owned(),
    );
    assert_eq!(creation.action(), Action::Begin);
    let creation = match creation.advance(Reply::Done) {
        Progress::Continue(creation) => creation,
        Progress::Finish(outcome) => panic!("{outcome:?}"),
    };
    let statement = Statement::ReserveCreation {
        caller_instance: "business-admin".to_owned(),
        idempotency_key: "create-acme".to_owned(),
        name: "Acme".to_owned(),
        slug: "acme".to_owned(),
        owner_subject: "usr_owner".to_owned(),
        organization_id: "org_1".to_owned(),
        owner_membership_id: "member_1".to_owned(),
    };
    assert_eq!(creation.action(), Action::Execute(statement.clone()));
    assert!(statement
        .sql()
        .ends_with("ON CONFLICT (caller_instance,idempotency_key) DO NOTHING"));
    assert_eq!(
        statement.parameters(),
        [
            "business-admin",
            "create-acme",
            "Acme",
            "acme",
            "usr_owner",
            "org_1",
            "member_1"
        ]
        .map(|text| Parameter::Text(text.to_owned()))
    );
    let replay = match creation.clone().advance(Reply::RowsAffected(0)) {
        Progress::Continue(creation) => creation,
        Progress::Finish(outcome) => panic!("{outcome:?}"),
    };
    assert_eq!(
        replay.action(),
        Action::Execute(Statement::ReadCreation {
            caller_instance: "business-admin".to_owned(),
            idempotency_key: "create-acme".to_owned(),
        })
    );
    let creation = match creation.advance(Reply::RowsAffected(1)) {
        Progress::Continue(creation) => creation,
        Progress::Finish(outcome) => panic!("{outcome:?}"),
    };
    assert_eq!(
        creation.action(),
        Action::Execute(Statement::InsertOrganization {
            organization_id: "org_1".to_owned(),
            name: "Acme".to_owned(),
            slug: "acme".to_owned(),
        })
    );
    assert_eq!(
        creation.clone().advance(Reply::Failed {
            constraint: Some("organizations_pkey".to_owned())
        }),
        Progress::Finish(Err(plugin_failure(
            "PostgreSQL operation `insert organization` failed"
        )))
    );
    assert_eq!(
        creation.advance(Reply::Failed {
            constraint: Some("organizations_active_slug_key".to_owned())
        }),
        Progress::Finish(Ok(Err(CreateOrganizationError::SlugConflict)))
    );
}

#[test]
fn slug_constraint_counts_only_where_the_organization_is_inserted() {
    let mut creation = creation_with_ids(
        "business-admin".to_owned(),
        create_request(),
        "Acme".to_owned(),
        "org_1".to_owned(),
        "member_1".to_owned(),
    );
    creation.stage = CreationStage::InsertOwner;
    assert_eq!(
        creation.advance(Reply::Failed {
            constraint: Some("organizations_active_slug_key".to_owned())
        }),
        Progress::Finish(Err(plugin_failure(
            "PostgreSQL operation `insert owner membership` failed"
        )))
    );
}

#[test]
fn creation_replay_compares_the_whole_intent() {
    let row = CreationRow {
        name: "Acme".to_owned(),
        slug: "acme".to_owned(),
        owner_subject: "usr_owner".to_owned(),
        organization_id: "org_1".to_owned(),
        owner_membership_id: "member_1".to_owned(),
    };
    let answer = read_creation_replay(row.clone(), "Acme", "acme", "usr_owner").unwrap();
    assert!(!answer.created);
    assert_eq!(answer.organization_id, "org_1");
    assert_eq!(answer.owner_membership_id, "member_1");
    for (name, slug, owner) in [
        ("Acme Two", "acme", "usr_owner"),
        ("Acme", "acme-two", "usr_owner"),
        ("Acme", "acme", "usr_other"),
    ] {
        assert_eq!(
            read_creation_replay(row.clone(), name, slug, owner),
            Err(CreateOrganizationError::IdempotencyConflict)
        );
    }
}

fn command_row() -> CommandRow {
    CommandRow {
        operation: "add_member".to_owned(),
        organization_id: "org_acme".to_owned(),
        subject: "usr_member".to_owned(),
        membership_id: Some("member_1".to_owned()),
        result_revision: Some(1),
        changed: Some(true),
    }
}

#[test]
fn command_replay_compares_the_whole_command() {
    assert_eq!(
        read_membership_command_replay(command_row(), "add_member", "org_acme", "usr_member"),
        Ok(MembershipCommandReplay::Exact {
            membership_id: "member_1".to_owned(),
            revision: 1
        })
    );
    for (operation, organization, subject) in [
        ("remove_member", "org_acme", "usr_member"),
        ("add_member", "org_other", "usr_member"),
        ("add_member", "org_acme", "usr_other"),
    ] {
        assert_eq!(
            read_membership_command_replay(command_row(), operation, organization, subject),
            Ok(MembershipCommandReplay::Conflict)
        );
    }
}

#[test]
fn command_receipt_without_a_result_is_a_broken_invariant() {
    let broken = plugin_failure(
        "Organization invariant failed: committed membership command has no result",
    );
    for row in [
        CommandRow {
            membership_id: None,
            ..command_row()
        },
        CommandRow {
            result_revision: None,
            ..command_row()
        },
        CommandRow {
            changed: None,
            ..command_row()
        },
    ] {
        assert_eq!(
            read_membership_command_replay(row, "add_member", "org_acme", "usr_member"),
            Err(broken.clone())
        );
    }
}

#[test]
fn revisions_do_not_overflow() {
    assert_eq!(next_membership_revision(1), Ok(2));
    assert_eq!(next_membership_revision(i64::MAX - 1), Ok(i64::MAX));
    let overflow = plugin_failure("Organization invariant failed: membership revision overflow");
    assert_eq!(next_membership_revision(i64::MAX), Err(overflow.clone()));
    let removal = Removal {
        caller_instance: "membership-admin".to_owned(),
        idempotency_key: "remove".to_owned(),
        organization_id: "org_acme".to_owned(),
        subject: "usr_member".to_owned(),
        stage: RemovalStage::ReadMember,
    };
    assert_eq!(
        removal.advance(Reply::OwnedMember(Some(OwnedMemberRow {
            membership_id: "member_1".to_owned(),
            is_owner: false,
            revision: i64::MAX
        }))),
        Progress::Finish(Err(overflow))
    );
}

#[test]
fn command_completes_exactly_one_receipt() {
    let mut addition = addition_with_id(
        "membership-admin".to_owned(),
        AddMemberRequest {
            idempotency_key: "add".to_owned(),
            organization_id: "org_acme".to_owned(),
            subject: "usr_member".to_owned(),
        },
        "member_1".to_owned(),
    );
    addition.stage = AdditionStage::ReadMember;
    let addition = match addition.advance(Reply::Member(Some(MemberRow {
        membership_id: "member_0".to_owned(),
        revision: 7,
    }))) {
        Progress::Continue(addition) => addition,
        Progress::Finish(outcome) => panic!("{outcome:?}"),
    };
    assert_eq!(
        addition.action(),
        Action::Execute(Statement::CompleteCommand {
            caller_instance: "membership-admin".to_owned(),
            idempotency_key: "add".to_owned(),
            membership_id: "member_0".to_owned(),
            revision: 7,
            changed: false,
        })
    );
    for count in [0, 2] {
        assert_eq!(
            addition.clone().advance(Reply::RowsAffected(count)),
            Progress::Finish(Err(plugin_failure(
                "PostgreSQL operation `complete membership command` failed"
            )))
        );
    }
}

#[test]
fn directory_entry_is_answered_with_its_revision_in_decimal() {
    let request = GetOrganizationRequest {
        organization_id: "org_acme".to_owned(),
    };
    assert_eq!(
        directory_statement(&request).parameters(),
        [Parameter::Text("org_acme".to_owned())]
    );
    let answer = directory_answer(
        request.clone(),
        Reply::Directory(Some(DirectoryRow {
            name: "Acme".to_owned(),
            slug: "acme".to_owned(),
            active: false,
            revision: 1203,
        })),
    )
    .unwrap()
    .unwrap();
    assert_eq!(answer.revision, "1203");
    assert_eq!(answer.organization_id, "org_acme");
    assert!(!answer.active);
    assert_eq!(
        directory_answer(request.clone(), Reply::Directory(None)),
        Ok(Err(GetOrganizationError::OrganizationNotFound))
    );
    assert_eq!(
        directory_answer(request, Reply::Failed { constraint: None }),
        Err(plugin_failure(
            "PostgreSQL operation `get organization directory entry` failed"
        ))
    );
}

#[test]
fn standing_columns_are_decoded_in_order() {
    let standing = |organization_exists, active, owner| {
        standing_answer(Reply::Standing(StandingRow {
            organization_exists,
            active,
            owner,
        }))
    };
    assert_eq!(
        standing(None, Some(true), Some(true)),
        Err(plugin_failure(
            "PostgreSQL operation `decode organization existence` failed"
        ))
    );
    assert_eq!(
        standing(Some(false), None, None),
        Ok(Err(CheckMembershipError::OrganizationNotFound))
    );
    assert_eq!(
        standing(Some(true), None, None),
        Err(plugin_failure(
            "PostgreSQL operation `decode organization membership` failed"
        ))
    );
    assert_eq!(
        standing(Some(true), Some(true), None),
        Err(plugin_failure(
            "PostgreSQL operation `decode organization ownership` failed"
        ))
    );
    let answer = standing(Some(true), Some(true), Some(false)).unwrap().unwrap();
    assert!(answer.active);
    assert!(!answer.owner);
    assert_eq!(
        standing_answer(Reply::Failed { constraint: None }),
        Err(plugin_failure(
            "PostgreSQL operation `check organization membership` failed"
        ))
    );
}

#[test]
fn errors_have_messages() {
    assert_eq!(
        OrganizationError::Database {
            operation: "insert organization"
        }
        .message(),
        "PostgreSQL operation `insert organization` failed"
    );
    assert_eq!(
        OrganizationError::Random.message(),
        "random source unavailable"
    );
    assert_eq!(
        OrganizationError::Invariant { detail: "broken" }.message(),
        "Organization invariant failed: broken"
    );
}

fn config() -> OrganizationConfig {
    OrganizationConfig::new(
        "organization",
        "organization/database",
        vec!["business-admin".to_owned()],
    )
    .unwrap()
}

#[test]
fn factory_refuses_what_the_plan_cannot_have() {
    let factory = OrganizationFactory;
    assert_eq!(factory.package_id(), "lenso.organization.postgres");
    assert_eq!(PACKAGE_ID, "lenso.organization.postgres");
    let refused = |detail: &str| {
        Err(RuntimeFailure::InvalidResolvedPlan {
            detail: detail.to_owned(),
        })
    };
    assert_eq!(
        factory.instantiate("other", Ok(config())),
        refused("unsupported Organization entrypoint `other`")
    );
    assert_eq!(
        factory.instantiate("default", Err("missing field `schema`".to_owned())),
        refused("Organization configuration is invalid: missing field `schema`")
    );
    let mut invalid = config();
    invalid.schema = "public".to_owned();
    assert_eq!(
        factory.instantiate("default", Ok(invalid)),
        refused("invalid owned PostgreSQL schema")
    );
    let (provider, kept) = factory.instantiate("default", Ok(config())).unwrap();
    assert_eq!(provider.admin_callers, ["business-admin"]);
    assert!(provider.directory_callers.is_empty());
    assert!(provider.membership_admin_callers.is_empty());
    assert_eq!(kept, config());
}

#[test]
fn preparation_takes_each_answer() {
    let lifecycle = OrganizationLifecycle { config: config() };
    assert_eq!(lifecycle.secret_reference(), "organization/database");
    let rejected: Result<(), SecretFailure<u8>> = Err(SecretFailure::Rejected);
    assert_eq!(
        lifecycle.plan_after_secret(rejected).unwrap_err(),
        PrepareFailure::Own(plugin_failure(
            "database URL secret `organization/database` was rejected"
        ))
    );
    let failed: Result<(), SecretFailure<u8>> = Err(SecretFailure::Runtime(7));
    assert_eq!(
        lifecycle.plan_after_secret(failed).unwrap_err(),
        PrepareFailure::Passed(7)
    );
    let resolved: Result<(), SecretFailure<u8>> = Ok(());
    let plan = lifecycle.plan_after_secret(resolved).unwrap();
    assert_eq!(plan.schema(), "organization");
    assert_eq!(plan.current_version(), 3);

    let mut invalid = config();
    invalid.schema = "Organization".to_owned();
    let resolved: Result<(), SecretFailure<u8>> = Ok(());
    assert_eq!(
        OrganizationLifecycle { config: invalid }
            .plan_after_secret(resolved)
            .unwrap_err(),
        PrepareFailure::Own(RuntimeFailure::InvalidResolvedPlan {
            detail: "invalid owned schema name `Organization`".to_owned()
        })
    );
    assert_eq!(
        connection_failure("connection refused".to_owned()),
        plugin_failure("connection refused")
    );
}
