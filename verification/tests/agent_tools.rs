//! The Agent Tools and the secrets fixture.

use lenso_organization::agent_tools::{
    catalog, conclude, decoded, definition, map_add_member_error, map_create_organization_error,
    map_get_organization_error, map_list_members_error, map_list_organizations_error,
    map_remove_member_error, rejected, success, tool, tool_definitions, Capability,
    ExecuteError, ExecuteResponse, ExecutionFailedPayload, Invocation, Tool, ToolError, ToolExecutionClass,
    ToolInvocation, ADD_MEMBER_TOOL, CREATE_ORGANIZATION_TOOL, GET_ORGANIZATION_TOOL,
    LIST_MEMBERS_TOOL, LIST_ORGANIZATIONS_TOOL, REMOVE_MEMBER_TOOL,
};
use lenso_organization::contracts::{
    AddMemberError, CreateOrganizationError, GetOrganizationError, ListMembersError,
    ListOrganizationsError, RemoveMemberError,
};
use lenso_organization::failure::RuntimeFailure;
use lenso_organization::secrets_fixture::{
    FixtureInstance, FixtureSecrets, FixtureSecretsFactory, ResolveError,
};

fn rejection(reason_code: &str) -> ExecuteError {
    ExecuteError::ExecutionFailed {
        payload: ExecutionFailedPayload {
            reason_code: reason_code.to_owned(),
            message: "Organization administration rejected the requested operation.".to_owned(),
            details_json: format!("{{\"domain_error\":\"{reason_code}\"}}"),
        },
    }
}

#[test]
fn catalog_has_three_reads_and_three_mutations() {
    let tools = tool_definitions().unwrap();
    assert_eq!(tools.len(), 6);
    assert_eq!(
        tools
            .iter()
            .filter(|tool| tool.execution == ToolExecutionClass::ParallelSafe)
            .count(),
        3
    );
    assert_eq!(
        tools
            .iter()
            .filter(|tool| tool.execution == ToolExecutionClass::Exclusive)
            .count(),
        3
    );
    assert!(tools
        .iter()
        .all(|tool| !tool.name.contains("check_membership")));
}

#[test]
fn exact_list_request_and_failures_remain_distinct() {
    assert_eq!(
        map_remove_member_error(&RemoveMemberError::OwnerProtected),
        rejected("owner_protected")
    );
    assert_eq!(
        map_get_organization_error(&GetOrganizationError::OrganizationNotFound),
        ExecuteError::NotFound
    );
}

#[test]
fn arguments_that_do_not_decode_are_invalid() {
    assert_eq!(decoded(Some(50)), Ok(50));
    assert_eq!(decoded::<u32>(None), Err(ExecuteError::InvalidArguments));
}

#[test]
fn each_tool_calls_one_operation_of_one_of_three_capabilities() {
    let calls: Vec<(Capability, &str)> = catalog()
        .into_iter()
        .map(|tool| (tool.capability(), tool.operation()))
        .collect();
    assert_eq!(
        calls,
        vec![
            (Capability::Directory, "get_organization"),
            (Capability::Admin, "list_organizations"),
            (Capability::MembershipAdmin, "list_members"),
            (Capability::Admin, "create_organization"),
            (Capability::MembershipAdmin, "add_member"),
            (Capability::MembershipAdmin, "remove_member"),
        ]
    );
    assert_eq!(Capability::Admin.id(), "lenso.organization-admin@2");
    assert_eq!(Capability::Directory.id(), "lenso.organization-directory@1");
    assert_eq!(
        Capability::MembershipAdmin.id(),
        "lenso.organization-membership-admin@1"
    );
}

#[test]
fn catalog_names_each_tool_once_and_in_order() {
    let names: Vec<String> = tool_definitions()
        .unwrap()
        .into_iter()
        .map(|tool| tool.name)
        .collect();
    assert_eq!(
        names,
        [
            GET_ORGANIZATION_TOOL,
            LIST_ORGANIZATIONS_TOOL,
            LIST_MEMBERS_TOOL,
            CREATE_ORGANIZATION_TOOL,
            ADD_MEMBER_TOOL,
            REMOVE_MEMBER_TOOL,
        ]
    );
    for entry in catalog() {
        assert_eq!(Tool::from_name(entry.name()), Ok(entry));
    }
    assert_eq!(
        Tool::from_name("organization_admin_check_membership"),
        Err(ExecuteError::NotFound)
    );
    assert_eq!(Tool::from_name(""), Err(ExecuteError::NotFound));
}

#[test]
fn schemas_are_compact_json_with_the_same_content() {
    for definition in tool_definitions().unwrap() {
        assert!(!definition.input_schema_json.contains('\n'));
        let schema: serde_json::Value =
            serde_json::from_str(&definition.input_schema_json).unwrap();
        assert_eq!(schema["type"], "object");
        let source = Tool::from_name(&definition.name).unwrap().schema();
        assert_eq!(
            serde_json::from_str::<serde_json::Value>(source).unwrap(),
            schema
        );
    }
}

#[test]
fn tool_with_a_schema_that_is_no_json_is_not_defined() {
    assert_eq!(
        tool("a", "b", "{ \"x\" : [ 1 , 2 ] }", ToolExecutionClass::Exclusive),
        Some(definition(
            "a",
            "b",
            "{\"x\":[1,2]}".to_owned(),
            ToolExecutionClass::Exclusive
        ))
    );
    assert_eq!(
        tool("a", "b", "{ \"x\" : }", ToolExecutionClass::ParallelSafe),
        None
    );
}

#[test]
fn rejections_carry_their_reason() {
    assert_eq!(rejected("owner_protected"), rejection("owner_protected"));
    match rejected("a\"b\\c\n\u{1}\u{8}\u{c}\r\t\u{7f}\u{e9}") {
        ExecuteError::ExecutionFailed { payload } => assert_eq!(
            payload.details_json,
            "{\"domain_error\":\"a\\\"b\\\\c\\n\\u0001\\b\\f\\r\\t\u{7f}\u{e9}\"}"
        ),
        other => panic!("{other:?}"),
    }
}

#[test]
fn domain_errors_stay_apart_for_the_agent() {
    assert_eq!(
        map_remove_member_error(&RemoveMemberError::OwnerProtected),
        rejected("owner_protected")
    );
    assert_eq!(
        map_get_organization_error(&GetOrganizationError::OrganizationNotFound),
        ExecuteError::NotFound
    );
    for (error, expected) in [
        (GetOrganizationError::Forbidden, ExecuteError::PermissionDenied),
        (
            GetOrganizationError::InvalidRequest,
            ExecuteError::InvalidArguments,
        ),
        (
            GetOrganizationError::Unknown,
            rejection("unknown_domain_error"),
        ),
    ] {
        assert_eq!(map_get_organization_error(&error), expected);
    }
    for (error, expected) in [
        (
            ListOrganizationsError::Forbidden,
            ExecuteError::PermissionDenied,
        ),
        (
            ListOrganizationsError::InvalidPage,
            ExecuteError::InvalidArguments,
        ),
        (
            ListOrganizationsError::InvalidRequest,
            ExecuteError::InvalidArguments,
        ),
        (
            ListOrganizationsError::Unknown,
            rejection("unknown_domain_error"),
        ),
    ] {
        assert_eq!(map_list_organizations_error(&error), expected);
    }
    for (error, expected) in [
        (
            CreateOrganizationError::Forbidden,
            ExecuteError::PermissionDenied,
        ),
        (
            CreateOrganizationError::InvalidOrganization,
            ExecuteError::InvalidArguments,
        ),
        (
            CreateOrganizationError::IdempotencyConflict,
            rejection("idempotency_conflict"),
        ),
        (
            CreateOrganizationError::SlugConflict,
            rejection("slug_conflict"),
        ),
        (
            CreateOrganizationError::Unknown,
            rejection("unknown_domain_error"),
        ),
    ] {
        assert_eq!(map_create_organization_error(&error), expected);
    }
    for (error, expected) in [
        (ListMembersError::Forbidden, ExecuteError::PermissionDenied),
        (ListMembersError::InvalidPage, ExecuteError::InvalidArguments),
        (
            ListMembersError::InvalidRequest,
            ExecuteError::InvalidArguments,
        ),
        (
            ListMembersError::OrganizationNotFound,
            ExecuteError::NotFound,
        ),
        (ListMembersError::Unknown, rejection("unknown_domain_error")),
    ] {
        assert_eq!(map_list_members_error(&error), expected);
    }
    for (error, expected) in [
        (AddMemberError::Forbidden, ExecuteError::PermissionDenied),
        (AddMemberError::InvalidRequest, ExecuteError::InvalidArguments),
        (AddMemberError::OrganizationNotFound, ExecuteError::NotFound),
        (
            AddMemberError::IdempotencyConflict,
            rejection("idempotency_conflict"),
        ),
        (AddMemberError::Unknown, rejection("unknown_domain_error")),
    ] {
        assert_eq!(map_add_member_error(&error), expected);
    }
    for (error, expected) in [
        (RemoveMemberError::Forbidden, ExecuteError::PermissionDenied),
        (
            RemoveMemberError::InvalidRequest,
            ExecuteError::InvalidArguments,
        ),
        (RemoveMemberError::MembershipNotFound, ExecuteError::NotFound),
        (
            RemoveMemberError::OrganizationNotFound,
            ExecuteError::NotFound,
        ),
        (
            RemoveMemberError::IdempotencyConflict,
            rejection("idempotency_conflict"),
        ),
        (RemoveMemberError::Unknown, rejection("unknown_domain_error")),
    ] {
        assert_eq!(map_remove_member_error(&error), expected);
    }
}

#[test]
fn answers_are_handed_back_with_the_tool_name() {
    assert_eq!(
        success("some_tool", Ok("{}".to_owned())),
        Ok(ExecuteResponse {
            content: "{}".to_owned(),
            metadata_json: "{\"tool\":\"some_tool\"}".to_owned(),
        })
    );
    assert_eq!(
        success("some_tool", Err("key must be a string".to_owned())),
        Err(RuntimeFailure::PluginFailure {
            detail:
                "Organization Agent Tool could not serialize its response: key must be a string"
                    .to_owned()
        })
    );
    let answered = conclude::<u8>(ToolInvocation::AddMember(Invocation::Answered(Ok(
        "{\n}".to_owned()
    ))))
    .unwrap();
    assert_eq!(answered.content, "{\n}");
    assert_eq!(
        answered.metadata_json,
        "{\"tool\":\"organization_admin_add_member\"}"
    );
}

#[test]
fn every_end_of_an_invocation_ends_the_execution() {
    let invocations: Vec<(ToolInvocation<u8>, &str)> = vec![
        (
            ToolInvocation::GetOrganization(Invocation::Answered(Ok("x".to_owned()))),
            GET_ORGANIZATION_TOOL,
        ),
        (
            ToolInvocation::ListOrganizations(Invocation::Answered(Ok("x".to_owned()))),
            LIST_ORGANIZATIONS_TOOL,
        ),
        (
            ToolInvocation::ListMembers(Invocation::Answered(Ok("x".to_owned()))),
            LIST_MEMBERS_TOOL,
        ),
        (
            ToolInvocation::CreateOrganization(Invocation::Answered(Ok("x".to_owned()))),
            CREATE_ORGANIZATION_TOOL,
        ),
        (
            ToolInvocation::AddMember(Invocation::Answered(Ok("x".to_owned()))),
            ADD_MEMBER_TOOL,
        ),
        (
            ToolInvocation::RemoveMember(Invocation::Answered(Ok("x".to_owned()))),
            REMOVE_MEMBER_TOOL,
        ),
    ];
    for (invocation, name) in invocations {
        assert_eq!(
            conclude(invocation),
            Ok(ExecuteResponse {
                content: "x".to_owned(),
                metadata_json: format!("{{\"tool\":\"{name}\"}}"),
            })
        );
    }
    assert_eq!(
        conclude::<u8>(ToolInvocation::RemoveMember(Invocation::Domain(
            RemoveMemberError::OwnerProtected
        ))),
        Err(ToolError::Domain(rejection("owner_protected")))
    );
    assert_eq!(
        conclude::<u8>(ToolInvocation::ListMembers(Invocation::Domain(
            ListMembersError::OrganizationNotFound
        ))),
        Err(ToolError::Domain(ExecuteError::NotFound))
    );
    assert_eq!(
        conclude::<u8>(ToolInvocation::CreateOrganization(Invocation::Runtime(9))),
        Err(ToolError::Passed(9))
    );
    assert_eq!(
        conclude::<u8>(ToolInvocation::GetOrganization(Invocation::Answered(Err(
            "no".to_owned()
        )))),
        Err(ToolError::Own(RuntimeFailure::PluginFailure {
            detail: "Organization Agent Tool could not serialize its response: no".to_owned()
        }))
    );
}

#[test]
fn fixture_accepts_only_an_empty_configuration_and_two_entrypoints() {
    let factory = FixtureSecretsFactory;
    assert_eq!(factory.package_id(), "lenso.organization.fixture");
    assert_eq!(
        factory.instantiate("{}", "secrets"),
        Ok(FixtureInstance::Secrets)
    );
    assert_eq!(
        factory.instantiate("{}", "consumer"),
        Ok(FixtureInstance::Consumer)
    );
    assert_eq!(
        factory.instantiate("{}", "other"),
        Err(RuntimeFailure::InvalidResolvedPlan {
            detail: "unsupported Organization fixture entrypoint `other`".to_owned()
        })
    );
    assert_eq!(
        factory.instantiate("{ }", "secrets"),
        Err(RuntimeFailure::InvalidResolvedPlan {
            detail: "Organization fixture accepts only empty configuration".to_owned()
        })
    );
    assert_eq!(
        FixtureSecrets.resolve("organization/database"),
        Err(ResolveError::UnknownReference)
    );
}
