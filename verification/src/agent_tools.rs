//! Agent-facing Tools over the Organization administration Capabilities.
//!
//! Arguments are decoded and answers encoded outside the library; it names the
//! Tools, describes them, and turns every end of an invocation into the end of
//! a Tool execution.

use vstd::prelude::*;

use crate::contracts::{
    AddMemberError, CreateOrganizationError, GetOrganizationError, ListMembersError,
    ListOrganizationsError, RemoveMemberError,
};
use crate::failure::RuntimeFailure;
use crate::json;
use crate::text;

verus! {

pub const GET_ORGANIZATION_TOOL: &'static str = "organization_admin_get_organization";

pub const LIST_ORGANIZATIONS_TOOL: &'static str = "organization_admin_list_organizations";

pub const CREATE_ORGANIZATION_TOOL: &'static str = "organization_admin_create_organization";

pub const LIST_MEMBERS_TOOL: &'static str = "organization_admin_list_members";

pub const ADD_MEMBER_TOOL: &'static str = "organization_admin_add_member";

pub const REMOVE_MEMBER_TOOL: &'static str = "organization_admin_remove_member";

/// The Capability that administers Organizations.
pub const ORGANIZATION_ADMIN: &'static str = "lenso.organization-admin@2";

/// The Capability that looks Organizations up.
pub const ORGANIZATION_DIRECTORY: &'static str = "lenso.organization-directory@1";

/// The Capability that administers memberships.
pub const ORGANIZATION_MEMBERSHIP_ADMIN: &'static str = "lenso.organization-membership-admin@1";

/// The JSON Schema of the arguments of the get Tool.
pub const GET_ORGANIZATION_SCHEMA: &'static str = "{
  \"type\": \"object\",
  \"additionalProperties\": false,
  \"required\": [\"organization_id\"],
  \"properties\": {
    \"organization_id\": { \"type\": \"string\", \"minLength\": 1, \"maxLength\": 256 }
  }
}";

/// The JSON Schema of the arguments of the list Tool for Organizations.
pub const LIST_ORGANIZATIONS_SCHEMA: &'static str = "{
  \"type\": \"object\",
  \"additionalProperties\": false,
  \"required\": [\"slug\", \"status\", \"limit\", \"cursor\"],
  \"properties\": {
    \"slug\": { \"type\": [\"string\", \"null\"] },
    \"status\": { \"enum\": [\"active\", \"archived\", null] },
    \"limit\": { \"type\": \"integer\", \"minimum\": 1, \"maximum\": 100 },
    \"cursor\": { \"type\": [\"string\", \"null\"] }
  }
}";

/// The JSON Schema of the arguments of the list Tool for members.
pub const LIST_MEMBERS_SCHEMA: &'static str = "{
  \"type\": \"object\",
  \"additionalProperties\": false,
  \"required\": [\"organization_id\", \"subject\", \"status\", \"limit\", \"cursor\"],
  \"properties\": {
    \"organization_id\": { \"type\": \"string\", \"minLength\": 1, \"maxLength\": 256 },
    \"subject\": { \"type\": [\"string\", \"null\"] },
    \"status\": { \"enum\": [\"active\", \"removed\", null] },
    \"limit\": { \"type\": \"integer\", \"minimum\": 1, \"maximum\": 100 },
    \"cursor\": { \"type\": [\"string\", \"null\"] }
  }
}";

/// The JSON Schema of the arguments of the create Tool.
pub const CREATE_ORGANIZATION_SCHEMA: &'static str = "{
  \"type\": \"object\",
  \"additionalProperties\": false,
  \"required\": [\"idempotency_key\", \"name\", \"owner_subject\", \"slug\"],
  \"properties\": {
    \"idempotency_key\": { \"type\": \"string\", \"minLength\": 1, \"maxLength\": 256 },
    \"name\": { \"type\": \"string\", \"minLength\": 1, \"maxLength\": 200 },
    \"owner_subject\": { \"type\": \"string\", \"minLength\": 1, \"maxLength\": 256 },
    \"slug\": { \"type\": \"string\", \"minLength\": 1, \"maxLength\": 100 }
  }
}";

/// The JSON Schema of the arguments of the add and remove Tools.
pub const MEMBERSHIP_COMMAND_SCHEMA: &'static str = "{
  \"type\": \"object\",
  \"additionalProperties\": false,
  \"required\": [\"idempotency_key\", \"organization_id\", \"subject\"],
  \"properties\": {
    \"idempotency_key\": { \"type\": \"string\", \"minLength\": 1, \"maxLength\": 256 },
    \"organization_id\": { \"type\": \"string\", \"minLength\": 1, \"maxLength\": 256 },
    \"subject\": { \"type\": \"string\", \"minLength\": 1, \"maxLength\": 256 }
  }
}";

/// One of the Tools.
#[derive(Clone, Copy, Debug, PartialEq, Eq, Structural)]
pub enum Tool {
    GetOrganization,
    ListOrganizations,
    ListMembers,
    CreateOrganization,
    AddMember,
    RemoveMember,
}

/// The Capabilities that the Tools call.
#[derive(Clone, Copy, Debug, PartialEq, Eq, Structural)]
pub enum Capability {
    Admin,
    Directory,
    MembershipAdmin,
}

/// Whether executions of a Tool may overlap.
#[derive(Clone, Copy, Debug, PartialEq, Eq, Structural)]
pub enum ToolExecutionClass {
    ParallelSafe,
    Exclusive,
}

/// What the catalog says of a Tool.
#[derive(Clone, Debug, PartialEq, Eq)]
pub struct ToolDefinition<S = String> {
    pub name: S,
    pub description: S,
    pub input_schema_json: S,
    pub execution: ToolExecutionClass,
}

impl View for ToolDefinition {
    type V = ToolDefinition<Seq<char>>;

    open spec fn view(&self) -> ToolDefinition<Seq<char>> {
        ToolDefinition {
            name: self.name@,
            description: self.description@,
            input_schema_json: self.input_schema_json@,
            execution: self.execution,
        }
    }
}

/// The end of an execution that the Domain refused.
#[derive(Clone, Debug, PartialEq, Eq)]
pub struct ExecutionFailedPayload<S = String> {
    pub reason_code: S,
    pub message: S,
    pub details_json: S,
}

/// Why a Tool was not executed.
#[derive(Clone, Debug, PartialEq, Eq)]
pub enum ExecuteError<S = String> {
    ExecutionFailed { payload: ExecutionFailedPayload<S> },
    InvalidArguments,
    NotFound,
    PermissionDenied,
}

impl View for ExecuteError {
    type V = ExecuteError<Seq<char>>;

    open spec fn view(&self) -> ExecuteError<Seq<char>> {
        match *self {
            ExecuteError::ExecutionFailed { payload } => ExecuteError::ExecutionFailed {
                payload: ExecutionFailedPayload {
                    reason_code: payload.reason_code@,
                    message: payload.message@,
                    details_json: payload.details_json@,
                },
            },
            ExecuteError::InvalidArguments => ExecuteError::InvalidArguments,
            ExecuteError::NotFound => ExecuteError::NotFound,
            ExecuteError::PermissionDenied => ExecuteError::PermissionDenied,
        }
    }
}

/// What a Tool hands back.
#[derive(Clone, Debug, PartialEq, Eq)]
pub struct ExecuteResponse<S = String> {
    pub content: S,
    pub metadata_json: S,
}

impl View for ExecuteResponse {
    type V = ExecuteResponse<Seq<char>>;

    open spec fn view(&self) -> ExecuteResponse<Seq<char>> {
        ExecuteResponse { content: self.content@, metadata_json: self.metadata_json@ }
    }
}

/// How an execution fails. `F` is a failure of the runtime, which is passed on
/// as it is.
#[derive(Clone, Debug, PartialEq, Eq)]
pub enum ToolError<F, S = String> {
    Domain(ExecuteError<S>),
    Own(RuntimeFailure<S>),
    Passed(F),
}

/// What the end of an execution says.
pub open spec fn execution_view<F>(result: Result<ExecuteResponse, ToolError<F>>) -> Result<
    ExecuteResponse<Seq<char>>,
    ToolError<F, Seq<char>>,
> {
    match result {
        Ok(response) => Ok(response@),
        Err(ToolError::Domain(error)) => Err(ToolError::Domain(error@)),
        Err(ToolError::Own(failure)) => Err(ToolError::Own(failure@)),
        Err(ToolError::Passed(failure)) => Err(ToolError::Passed(failure)),
    }
}

/// How a call of a Capability ended: with an answer, encoded as JSON or with
/// the encoder's message, with a Domain Error or with a failure.
#[derive(Debug, PartialEq, Eq)]
pub enum Invocation<E, F> {
    Answered(Result<String, String>),
    Domain(E),
    Runtime(F),
}

/// How the call behind a Tool ended.
#[derive(Debug, PartialEq, Eq)]
pub enum ToolInvocation<F> {
    GetOrganization(Invocation<GetOrganizationError, F>),
    ListOrganizations(Invocation<ListOrganizationsError, F>),
    ListMembers(Invocation<ListMembersError, F>),
    CreateOrganization(Invocation<CreateOrganizationError, F>),
    AddMember(Invocation<AddMemberError, F>),
    RemoveMember(Invocation<RemoveMemberError, F>),
}

impl Capability {
    /// The identifier of the Capability.
    pub open spec fn identifier(self) -> Seq<char> {
        match self {
            Capability::Admin => ORGANIZATION_ADMIN@,
            Capability::Directory => ORGANIZATION_DIRECTORY@,
            Capability::MembershipAdmin => ORGANIZATION_MEMBERSHIP_ADMIN@,
        }
    }

    /// The identifier of the Capability.
    pub fn id(self) -> (result: &'static str)
        ensures
            result@ == self.identifier(),
    {
        match self {
            Capability::Admin => ORGANIZATION_ADMIN,
            Capability::Directory => ORGANIZATION_DIRECTORY,
            Capability::MembershipAdmin => ORGANIZATION_MEMBERSHIP_ADMIN,
        }
    }
}

impl Tool {
    /// The Capability that a call of the Tool goes to.
    pub open spec fn target(self) -> Capability {
        match self {
            Tool::GetOrganization => Capability::Directory,
            Tool::ListOrganizations => Capability::Admin,
            Tool::ListMembers => Capability::MembershipAdmin,
            Tool::CreateOrganization => Capability::Admin,
            Tool::AddMember => Capability::MembershipAdmin,
            Tool::RemoveMember => Capability::MembershipAdmin,
        }
    }

    /// The operation of that Capability which is called.
    pub open spec fn called_operation(self) -> Seq<char> {
        match self {
            Tool::GetOrganization => "get_organization"@,
            Tool::ListOrganizations => "list_organizations"@,
            Tool::ListMembers => "list_members"@,
            Tool::CreateOrganization => "create_organization"@,
            Tool::AddMember => "add_member"@,
            Tool::RemoveMember => "remove_member"@,
        }
    }

    /// The name of the Tool.
    pub open spec fn label(self) -> Seq<char> {
        match self {
            Tool::GetOrganization => GET_ORGANIZATION_TOOL@,
            Tool::ListOrganizations => LIST_ORGANIZATIONS_TOOL@,
            Tool::ListMembers => LIST_MEMBERS_TOOL@,
            Tool::CreateOrganization => CREATE_ORGANIZATION_TOOL@,
            Tool::AddMember => ADD_MEMBER_TOOL@,
            Tool::RemoveMember => REMOVE_MEMBER_TOOL@,
        }
    }

    /// What the Tool is for.
    pub open spec fn purpose(self) -> Seq<char> {
        match self {
            Tool::GetOrganization =>
                "Get one Organization's authoritative name, slug, active state, and revision."@,
            Tool::ListOrganizations =>
                "List Organizations with bounded cursor pagination and optional exact slug and status filters."@,
            Tool::ListMembers =>
                "List memberships in one exact Organization with optional exact subject and status filters."@,
            Tool::CreateOrganization =>
                "Create one Organization and its protected owner membership. Reuse the same idempotency_key when retrying one intent."@,
            Tool::AddMember =>
                "Add one active non-owner membership. Reuse the same idempotency_key when retrying one intent."@,
            Tool::RemoveMember =>
                "Remove one non-owner membership. Owners remain protected; reuse the same idempotency_key when retrying one intent."@,
        }
    }

    /// The JSON Schema of the Tool's arguments.
    pub open spec fn schema_text(self) -> Seq<char> {
        match self {
            Tool::GetOrganization => GET_ORGANIZATION_SCHEMA@,
            Tool::ListOrganizations => LIST_ORGANIZATIONS_SCHEMA@,
            Tool::ListMembers => LIST_MEMBERS_SCHEMA@,
            Tool::CreateOrganization => CREATE_ORGANIZATION_SCHEMA@,
            Tool::AddMember => MEMBERSHIP_COMMAND_SCHEMA@,
            Tool::RemoveMember => MEMBERSHIP_COMMAND_SCHEMA@,
        }
    }

    /// Whether the Tool only reads.
    pub open spec fn reads(self) -> bool {
        self is GetOrganization || self is ListOrganizations || self is ListMembers
    }

    /// What the catalog says of the Tool, with the given text of its schema.
    pub open spec fn described(self, schema: Seq<char>) -> ToolDefinition<Seq<char>> {
        ToolDefinition {
            name: self.label(),
            description: self.purpose(),
            input_schema_json: schema,
            execution: if self.reads() {
                ToolExecutionClass::ParallelSafe
            } else {
                ToolExecutionClass::Exclusive
            },
        }
    }

    /// The Capability that a call of the Tool goes to.
    pub fn capability(self) -> (result: Capability)
        ensures
            result == self.target(),
    {
        match self {
            Tool::GetOrganization => Capability::Directory,
            Tool::ListOrganizations | Tool::CreateOrganization => Capability::Admin,
            _ => Capability::MembershipAdmin,
        }
    }

    /// The operation of that Capability which is called.
    pub fn operation(self) -> (result: &'static str)
        ensures
            result@ == self.called_operation(),
    {
        match self {
            Tool::GetOrganization => "get_organization",
            Tool::ListOrganizations => "list_organizations",
            Tool::ListMembers => "list_members",
            Tool::CreateOrganization => "create_organization",
            Tool::AddMember => "add_member",
            Tool::RemoveMember => "remove_member",
        }
    }

    /// The name of the Tool.
    pub fn name(self) -> (result: &'static str)
        ensures
            result@ == self.label(),
    {
        match self {
            Tool::GetOrganization => GET_ORGANIZATION_TOOL,
            Tool::ListOrganizations => LIST_ORGANIZATIONS_TOOL,
            Tool::ListMembers => LIST_MEMBERS_TOOL,
            Tool::CreateOrganization => CREATE_ORGANIZATION_TOOL,
            Tool::AddMember => ADD_MEMBER_TOOL,
            Tool::RemoveMember => REMOVE_MEMBER_TOOL,
        }
    }

    /// What the Tool is for.
    pub fn description(self) -> (result: &'static str)
        ensures
            result@ == self.purpose(),
    {
        match self {
            Tool::GetOrganization =>
                "Get one Organization's authoritative name, slug, active state, and revision.",
            Tool::ListOrganizations =>
                "List Organizations with bounded cursor pagination and optional exact slug and status filters.",
            Tool::ListMembers =>
                "List memberships in one exact Organization with optional exact subject and status filters.",
            Tool::CreateOrganization =>
                "Create one Organization and its protected owner membership. Reuse the same idempotency_key when retrying one intent.",
            Tool::AddMember =>
                "Add one active non-owner membership. Reuse the same idempotency_key when retrying one intent.",
            Tool::RemoveMember =>
                "Remove one non-owner membership. Owners remain protected; reuse the same idempotency_key when retrying one intent.",
        }
    }

    /// The JSON Schema of the Tool's arguments.
    pub fn schema(self) -> (result: &'static str)
        ensures
            result@ == self.schema_text(),
    {
        match self {
            Tool::GetOrganization => GET_ORGANIZATION_SCHEMA,
            Tool::ListOrganizations => LIST_ORGANIZATIONS_SCHEMA,
            Tool::ListMembers => LIST_MEMBERS_SCHEMA,
            Tool::CreateOrganization => CREATE_ORGANIZATION_SCHEMA,
            Tool::AddMember => MEMBERSHIP_COMMAND_SCHEMA,
            Tool::RemoveMember => MEMBERSHIP_COMMAND_SCHEMA,
        }
    }

    /// Whether executions of the Tool may overlap.
    pub fn execution(self) -> (result: ToolExecutionClass)
        ensures
            result == (if self.reads() {
                ToolExecutionClass::ParallelSafe
            } else {
                ToolExecutionClass::Exclusive
            }),
    {
        match self {
            Tool::GetOrganization | Tool::ListOrganizations | Tool::ListMembers =>
                ToolExecutionClass::ParallelSafe,
            _ => ToolExecutionClass::Exclusive,
        }
    }

    /// The Tool of the given name.
    pub fn from_name(name: &str) -> (result: Result<Tool, ExecuteError>)
        ensures
            match result {
                Ok(tool) => tool.label() == name@,
                Err(error) => error is NotFound && forall|tool: Tool| #[trigger]
                    tool.label() != name@,
            },
    {
        if text::same(name, GET_ORGANIZATION_TOOL) {
            return Ok(Tool::GetOrganization);
        }
        if text::same(name, LIST_ORGANIZATIONS_TOOL) {
            return Ok(Tool::ListOrganizations);
        }
        if text::same(name, CREATE_ORGANIZATION_TOOL) {
            return Ok(Tool::CreateOrganization);
        }
        if text::same(name, LIST_MEMBERS_TOOL) {
            return Ok(Tool::ListMembers);
        }
        if text::same(name, ADD_MEMBER_TOOL) {
            return Ok(Tool::AddMember);
        }
        if text::same(name, REMOVE_MEMBER_TOOL) {
            return Ok(Tool::RemoveMember);
        }
        Err(ExecuteError::NotFound)
    }
}

/// No two Tools share a name.
pub proof fn law_tool_names_are_distinct(left: Tool, right: Tool)
    requires
        left.label() == right.label(),
    ensures
        left == right,
{
    reveal_strlit("organization_admin_get_organization");
    reveal_strlit("organization_admin_list_organizations");
    reveal_strlit("organization_admin_create_organization");
    reveal_strlit("organization_admin_list_members");
    reveal_strlit("organization_admin_add_member");
    reveal_strlit("organization_admin_remove_member");
    assert(GET_ORGANIZATION_TOOL@.len() == 35);
    assert(LIST_ORGANIZATIONS_TOOL@.len() == 37);
    assert(CREATE_ORGANIZATION_TOOL@.len() == 38);
    assert(LIST_MEMBERS_TOOL@.len() == 31);
    assert(ADD_MEMBER_TOOL@.len() == 29);
    assert(REMOVE_MEMBER_TOOL@.len() == 32);
}

/// A definition with the given compact schema.
pub fn definition(
    name: &str,
    description: &str,
    input_schema_json: String,
    execution: ToolExecutionClass,
) -> (result: ToolDefinition)
    ensures
        result@ == (ToolDefinition {
            name: name@,
            description: description@,
            input_schema_json: input_schema_json@,
            execution,
        }),
{
    ToolDefinition {
        name: name.to_owned(),
        description: description.to_owned(),
        input_schema_json,
        execution,
    }
}

/// A definition with the compact form of the given schema, as long as the
/// schema is JSON.
pub fn tool(
    name: &str,
    description: &str,
    schema: &str,
    execution: ToolExecutionClass,
) -> (result: Option<ToolDefinition>)
    ensures
        (match result {
            Some(definition) => Some(definition@),
            None => None,
        }) == (match json::compacted(schema@) {
            Some(compact) => Some(
                ToolDefinition {
                    name: name@,
                    description: description@,
                    input_schema_json: compact,
                    execution,
                },
            ),
            None => None,
        }),
{
    match json::compact(schema) {
        Some(compact) => Some(definition(name, description, compact, execution)),
        None => None,
    }
}

/// The Tools in the order of the catalog: the reads, then the mutations.
pub open spec fn catalog_order() -> Seq<Tool> {
    seq![
        Tool::GetOrganization,
        Tool::ListOrganizations,
        Tool::ListMembers,
        Tool::CreateOrganization,
        Tool::AddMember,
        Tool::RemoveMember,
    ]
}

/// The Tools in the order of the catalog.
pub fn catalog() -> (result: Vec<Tool>)
    ensures
        result@ == catalog_order(),
{
    vec![
        Tool::GetOrganization,
        Tool::ListOrganizations,
        Tool::ListMembers,
        Tool::CreateOrganization,
        Tool::AddMember,
        Tool::RemoveMember,
    ]
}

/// The catalog has each Tool once: three that only read and may overlap, and
/// three that change something and may not.
pub proof fn law_catalog_has_each_tool_once(tool: Tool)
    ensures
        catalog_order().len() == 6,
        exists|i: int| 0 <= i < 6 && catalog_order()[i] == tool,
        forall|i: int, j: int|
            0 <= i < j < 6 ==> #[trigger] catalog_order()[i] != #[trigger] catalog_order()[j],
        forall|i: int| 0 <= i < 6 ==> ((#[trigger] catalog_order()[i]).reads() <==> i < 3),
        forall|schema: Seq<char>|
            (#[trigger] tool.described(schema)).execution == (if tool.reads() {
                ToolExecutionClass::ParallelSafe
            } else {
                ToolExecutionClass::Exclusive
            }),
{
    let order = catalog_order();
    assert(order[0] is GetOrganization);
    assert(order[1] is ListOrganizations);
    assert(order[2] is ListMembers);
    assert(order[3] is CreateOrganization);
    assert(order[4] is AddMember);
    assert(order[5] is RemoveMember);
    let at: int = match tool {
        Tool::GetOrganization => 0,
        Tool::ListOrganizations => 1,
        Tool::ListMembers => 2,
        Tool::CreateOrganization => 3,
        Tool::AddMember => 4,
        Tool::RemoveMember => 5,
    };
    assert(order[at] == tool);
}

/// Every Tool is named after the operation that it calls.
pub proof fn law_tools_are_named_after_their_operations(tool: Tool)
    ensures
        tool.label() == "organization_admin_"@ + tool.called_operation(),
{
    reveal_strlit("organization_admin_");
    reveal_strlit("get_organization");
    reveal_strlit("organization_admin_get_organization");
    reveal_strlit("list_organizations");
    reveal_strlit("organization_admin_list_organizations");
    reveal_strlit("list_members");
    reveal_strlit("organization_admin_list_members");
    reveal_strlit("create_organization");
    reveal_strlit("organization_admin_create_organization");
    reveal_strlit("add_member");
    reveal_strlit("organization_admin_add_member");
    reveal_strlit("remove_member");
    reveal_strlit("organization_admin_remove_member");
}

/// The catalog, as long as every schema is JSON.
pub fn tool_definitions() -> (result: Option<Vec<ToolDefinition>>)
    ensures
        match result {
            Some(definitions) => {
                &&& definitions@.len() == catalog_order().len()
                &&& forall|i: int|
                    0 <= i < catalog_order().len() ==> {
                        let tool = catalog_order()[i];
                        &&& json::compacted(tool.schema_text()) is Some
                        &&& (#[trigger] definitions@[i])@ == tool.described(
                            json::compacted(tool.schema_text())->0,
                        )
                    }
            },
            None => exists|i: int|
                0 <= i < catalog_order().len() && json::compacted(
                    (#[trigger] catalog_order()[i]).schema_text(),
                ) is None,
        },
{
    let order = catalog();
    let mut definitions: Vec<ToolDefinition> = Vec::new();
    let mut i: usize = 0;
    while i < order.len()
        invariant
            order@ == catalog_order(),
            i <= order@.len(),
            definitions@.len() == i,
            forall|j: int|
                0 <= j < i ==> {
                    let tool = catalog_order()[j];
                    &&& json::compacted(tool.schema_text()) is Some
                    &&& (#[trigger] definitions@[j])@ == tool.described(
                        json::compacted(tool.schema_text())->0,
                    )
                },
        decreases order@.len() - i,
    {
        let entry = order[i];
        match tool(entry.name(), entry.description(), entry.schema(), entry.execution()) {
            Some(definition) => definitions.push(definition),
            None => {
                assert(json::compacted(catalog_order()[i as int].schema_text()) is None);
                return None;
            },
        }
        i = i + 1;
    }
    Some(definitions)
}

/// The arguments of a call as far as they could be decoded: arguments that
/// could not are invalid, and no call is made.
pub fn decoded<T>(arguments: Option<T>) -> (result: Result<T, ExecuteError>)
    ensures
        result == (match arguments {
            Some(decoded) => Ok::<T, ExecuteError>(decoded),
            None => Err(ExecuteError::InvalidArguments),
        }),
{
    match arguments {
        Some(decoded) => Ok(decoded),
        None => Err(ExecuteError::InvalidArguments),
    }
}

/// The end of an execution that the Domain refused for the given reason.
pub open spec fn rejection(reason_code: Seq<char>) -> ExecuteError<Seq<char>> {
    ExecuteError::ExecutionFailed {
        payload: ExecutionFailedPayload {
            reason_code,
            message: "Organization administration rejected the requested operation."@,
            details_json: json::object_text("domain_error"@, reason_code),
        },
    }
}

/// The end of an execution that the Domain refused for the given reason.
pub fn rejected(reason_code: &str) -> (result: ExecuteError)
    ensures
        result@ == rejection(reason_code@),
{
    ExecuteError::ExecutionFailed {
        payload: ExecutionFailedPayload {
            reason_code: reason_code.to_owned(),
            message: "Organization administration rejected the requested operation.".to_owned(),
            details_json: json::object_with("domain_error", reason_code),
        },
    }
}

/// The failure of an answer that cannot be encoded.
pub open spec fn unencodable(error: Seq<char>) -> RuntimeFailure<Seq<char>> {
    RuntimeFailure::PluginFailure {
        detail: "Organization Agent Tool could not serialize its response: "@ + error,
    }
}

/// What the answer of a Tool hands back.
pub open spec fn answered(tool_name: Seq<char>, content: Result<String, String>) -> Result<
    ExecuteResponse<Seq<char>>,
    RuntimeFailure<Seq<char>>,
> {
    match content {
        Ok(content) => Ok(
            ExecuteResponse {
                content: content@,
                metadata_json: json::object_text("tool"@, tool_name),
            },
        ),
        Err(error) => Err(unencodable(error@)),
    }
}

/// Hands back the answer of a Tool, with the Tool's name beside it.
pub fn success(tool_name: &str, content: Result<String, String>) -> (result: Result<
    ExecuteResponse,
    RuntimeFailure,
>)
    ensures
        (match result {
            Ok(response) => Ok(response@),
            Err(failure) => Err(failure@),
        }) == answered(tool_name@, content),
{
    match content {
        Ok(content) => Ok(
            ExecuteResponse { content, metadata_json: json::object_with("tool", tool_name) },
        ),
        Err(error) => {
            let detail = text::enclose(
                "Organization Agent Tool could not serialize its response: ",
                error.as_str(),
                "",
            );
            proof {
                reveal_strlit("");
                assert(detail@ == "Organization Agent Tool could not serialize its response: "@
                    + error@);
            }
            Err(RuntimeFailure::PluginFailure { detail })
        },
    }
}

/// What a refused directory read is for the Agent.
pub open spec fn get_organization_refusal(error: GetOrganizationError) -> ExecuteError<Seq<char>> {
    match error {
        GetOrganizationError::Forbidden => ExecuteError::PermissionDenied,
        GetOrganizationError::InvalidRequest => ExecuteError::InvalidArguments,
        GetOrganizationError::OrganizationNotFound => ExecuteError::NotFound,
        GetOrganizationError::Unknown => rejection("unknown_domain_error"@),
    }
}

/// What a refused listing of Organizations is for the Agent.
pub open spec fn list_organizations_refusal(error: ListOrganizationsError) -> ExecuteError<
    Seq<char>,
> {
    match error {
        ListOrganizationsError::Forbidden => ExecuteError::PermissionDenied,
        ListOrganizationsError::InvalidPage => ExecuteError::InvalidArguments,
        ListOrganizationsError::InvalidRequest => ExecuteError::InvalidArguments,
        ListOrganizationsError::Unknown => rejection("unknown_domain_error"@),
    }
}

/// What a refused creation is for the Agent.
pub open spec fn create_organization_refusal(error: CreateOrganizationError) -> ExecuteError<
    Seq<char>,
> {
    match error {
        CreateOrganizationError::Forbidden => ExecuteError::PermissionDenied,
        CreateOrganizationError::InvalidOrganization => ExecuteError::InvalidArguments,
        CreateOrganizationError::IdempotencyConflict => rejection("idempotency_conflict"@),
        CreateOrganizationError::SlugConflict => rejection("slug_conflict"@),
        CreateOrganizationError::Unknown => rejection("unknown_domain_error"@),
    }
}

/// What a refused listing of members is for the Agent.
pub open spec fn list_members_refusal(error: ListMembersError) -> ExecuteError<Seq<char>> {
    match error {
        ListMembersError::Forbidden => ExecuteError::PermissionDenied,
        ListMembersError::InvalidPage => ExecuteError::InvalidArguments,
        ListMembersError::InvalidRequest => ExecuteError::InvalidArguments,
        ListMembersError::OrganizationNotFound => ExecuteError::NotFound,
        ListMembersError::Unknown => rejection("unknown_domain_error"@),
    }
}

/// What a refused addition is for the Agent.
pub open spec fn add_member_refusal(error: AddMemberError) -> ExecuteError<Seq<char>> {
    match error {
        AddMemberError::Forbidden => ExecuteError::PermissionDenied,
        AddMemberError::InvalidRequest => ExecuteError::InvalidArguments,
        AddMemberError::OrganizationNotFound => ExecuteError::NotFound,
        AddMemberError::IdempotencyConflict => rejection("idempotency_conflict"@),
        AddMemberError::Unknown => rejection("unknown_domain_error"@),
    }
}

/// What a refused removal is for the Agent.
pub open spec fn remove_member_refusal(error: RemoveMemberError) -> ExecuteError<Seq<char>> {
    match error {
        RemoveMemberError::Forbidden => ExecuteError::PermissionDenied,
        RemoveMemberError::InvalidRequest => ExecuteError::InvalidArguments,
        RemoveMemberError::MembershipNotFound => ExecuteError::NotFound,
        RemoveMemberError::OrganizationNotFound => ExecuteError::NotFound,
        RemoveMemberError::IdempotencyConflict => rejection("idempotency_conflict"@),
        RemoveMemberError::OwnerProtected => rejection("owner_protected"@),
        RemoveMemberError::Unknown => rejection("unknown_domain_error"@),
    }
}

/// What a refused directory read is for the Agent.
pub fn map_get_organization_error(error: &GetOrganizationError) -> (result: ExecuteError)
    ensures
        result@ == get_organization_refusal(*error),
{
    match error {
        GetOrganizationError::Forbidden => ExecuteError::PermissionDenied,
        GetOrganizationError::InvalidRequest => ExecuteError::InvalidArguments,
        GetOrganizationError::OrganizationNotFound => ExecuteError::NotFound,
        GetOrganizationError::Unknown => rejected("unknown_domain_error"),
    }
}

/// What a refused listing of Organizations is for the Agent.
pub fn map_list_organizations_error(error: &ListOrganizationsError) -> (result: ExecuteError)
    ensures
        result@ == list_organizations_refusal(*error),
{
    match error {
        ListOrganizationsError::Forbidden => ExecuteError::PermissionDenied,
        ListOrganizationsError::InvalidPage | ListOrganizationsError::InvalidRequest =>
            ExecuteError::InvalidArguments,
        ListOrganizationsError::Unknown => rejected("unknown_domain_error"),
    }
}

/// What a refused creation is for the Agent.
pub fn map_create_organization_error(error: &CreateOrganizationError) -> (result: ExecuteError)
    ensures
        result@ == create_organization_refusal(*error),
{
    match error {
        CreateOrganizationError::Forbidden => ExecuteError::PermissionDenied,
        CreateOrganizationError::InvalidOrganization => ExecuteError::InvalidArguments,
        CreateOrganizationError::IdempotencyConflict => rejected("idempotency_conflict"),
        CreateOrganizationError::SlugConflict => rejected("slug_conflict"),
        CreateOrganizationError::Unknown => rejected("unknown_domain_error"),
    }
}

/// What a refused listing of members is for the Agent.
pub fn map_list_members_error(error: &ListMembersError) -> (result: ExecuteError)
    ensures
        result@ == list_members_refusal(*error),
{
    match error {
        ListMembersError::Forbidden => ExecuteError::PermissionDenied,
        ListMembersError::InvalidPage | ListMembersError::InvalidRequest =>
            ExecuteError::InvalidArguments,
        ListMembersError::OrganizationNotFound => ExecuteError::NotFound,
        ListMembersError::Unknown => rejected("unknown_domain_error"),
    }
}

/// What a refused addition is for the Agent.
pub fn map_add_member_error(error: &AddMemberError) -> (result: ExecuteError)
    ensures
        result@ == add_member_refusal(*error),
{
    match error {
        AddMemberError::Forbidden => ExecuteError::PermissionDenied,
        AddMemberError::InvalidRequest => ExecuteError::InvalidArguments,
        AddMemberError::OrganizationNotFound => ExecuteError::NotFound,
        AddMemberError::IdempotencyConflict => rejected("idempotency_conflict"),
        AddMemberError::Unknown => rejected("unknown_domain_error"),
    }
}

/// What a refused removal is for the Agent.
pub fn map_remove_member_error(error: &RemoveMemberError) -> (result: ExecuteError)
    ensures
        result@ == remove_member_refusal(*error),
{
    match error {
        RemoveMemberError::Forbidden => ExecuteError::PermissionDenied,
        RemoveMemberError::InvalidRequest => ExecuteError::InvalidArguments,
        RemoveMemberError::MembershipNotFound | RemoveMemberError::OrganizationNotFound =>
            ExecuteError::NotFound,
        RemoveMemberError::IdempotencyConflict => rejected("idempotency_conflict"),
        RemoveMemberError::OwnerProtected => rejected("owner_protected"),
        RemoveMemberError::Unknown => rejected("unknown_domain_error"),
    }
}

impl<F> ToolInvocation<F> {
    /// The Tool whose call ended.
    pub open spec fn of_tool(self) -> Tool {
        match self {
            ToolInvocation::GetOrganization(_) => Tool::GetOrganization,
            ToolInvocation::ListOrganizations(_) => Tool::ListOrganizations,
            ToolInvocation::ListMembers(_) => Tool::ListMembers,
            ToolInvocation::CreateOrganization(_) => Tool::CreateOrganization,
            ToolInvocation::AddMember(_) => Tool::AddMember,
            ToolInvocation::RemoveMember(_) => Tool::RemoveMember,
        }
    }

    /// The Domain Error that the call ended with, as the Agent sees it.
    pub open spec fn refusal(self) -> Option<ExecuteError<Seq<char>>> {
        match self {
            ToolInvocation::GetOrganization(Invocation::Domain(error)) => Some(
                get_organization_refusal(error),
            ),
            ToolInvocation::ListOrganizations(Invocation::Domain(error)) => Some(
                list_organizations_refusal(error),
            ),
            ToolInvocation::ListMembers(Invocation::Domain(error)) => Some(
                list_members_refusal(error),
            ),
            ToolInvocation::CreateOrganization(Invocation::Domain(error)) => Some(
                create_organization_refusal(error),
            ),
            ToolInvocation::AddMember(Invocation::Domain(error)) => Some(add_member_refusal(error)),
            ToolInvocation::RemoveMember(Invocation::Domain(error)) => Some(
                remove_member_refusal(error),
            ),
            _ => None,
        }
    }

    /// The failure that the call ended with.
    pub open spec fn passed_failure(self) -> Option<F> {
        match self {
            ToolInvocation::GetOrganization(Invocation::Runtime(failure)) => Some(failure),
            ToolInvocation::ListOrganizations(Invocation::Runtime(failure)) => Some(failure),
            ToolInvocation::ListMembers(Invocation::Runtime(failure)) => Some(failure),
            ToolInvocation::CreateOrganization(Invocation::Runtime(failure)) => Some(failure),
            ToolInvocation::AddMember(Invocation::Runtime(failure)) => Some(failure),
            ToolInvocation::RemoveMember(Invocation::Runtime(failure)) => Some(failure),
            _ => None,
        }
    }

    /// The encoded answer that the call ended with.
    pub open spec fn answer(self) -> Option<Result<String, String>> {
        match self {
            ToolInvocation::GetOrganization(Invocation::Answered(content)) => Some(content),
            ToolInvocation::ListOrganizations(Invocation::Answered(content)) => Some(content),
            ToolInvocation::ListMembers(Invocation::Answered(content)) => Some(content),
            ToolInvocation::CreateOrganization(Invocation::Answered(content)) => Some(content),
            ToolInvocation::AddMember(Invocation::Answered(content)) => Some(content),
            ToolInvocation::RemoveMember(Invocation::Answered(content)) => Some(content),
            _ => None,
        }
    }

    /// How the execution of the Tool ends: a Domain Error stays one, a failure
    /// is passed on, and an answer is handed back with the Tool's name.
    pub open spec fn concluded(self) -> Result<
        ExecuteResponse<Seq<char>>,
        ToolError<F, Seq<char>>,
    > {
        if self.refusal() is Some {
            Err(ToolError::Domain(self.refusal()->0))
        } else if self.passed_failure() is Some {
            Err(ToolError::Passed(self.passed_failure()->0))
        } else {
            match answered(self.of_tool().label(), self.answer()->0) {
                Ok(response) => Ok(response),
                Err(failure) => Err(ToolError::Own(failure)),
            }
        }
    }
}

fn hand_back<F>(tool_name: &str, content: Result<String, String>) -> (result: Result<
    ExecuteResponse,
    ToolError<F>,
>)
    ensures
        execution_view(result) == (match answered(tool_name@, content) {
            Ok(response) => Ok::<_, ToolError<F, Seq<char>>>(response),
            Err(failure) => Err(ToolError::Own(failure)),
        }),
{
    match success(tool_name, content) {
        Ok(response) => Ok(response),
        Err(failure) => Err(ToolError::Own(failure)),
    }
}

/// Ends the execution of a Tool.
pub fn conclude<F>(invocation: ToolInvocation<F>) -> (result: Result<
    ExecuteResponse,
    ToolError<F>,
>)
    ensures
        execution_view(result) == invocation.concluded(),
{
    match invocation {
        ToolInvocation::GetOrganization(ended) => match ended {
            Invocation::Answered(content) => hand_back(GET_ORGANIZATION_TOOL, content),
            Invocation::Domain(error) => Err(ToolError::Domain(map_get_organization_error(&error))),
            Invocation::Runtime(failure) => Err(ToolError::Passed(failure)),
        },
        ToolInvocation::ListOrganizations(ended) => match ended {
            Invocation::Answered(content) => hand_back(LIST_ORGANIZATIONS_TOOL, content),
            Invocation::Domain(error) => Err(
                ToolError::Domain(map_list_organizations_error(&error)),
            ),
            Invocation::Runtime(failure) => Err(ToolError::Passed(failure)),
        },
        ToolInvocation::ListMembers(ended) => match ended {
            Invocation::Answered(content) => hand_back(LIST_MEMBERS_TOOL, content),
            Invocation::Domain(error) => Err(ToolError::Domain(map_list_members_error(&error))),
            Invocation::Runtime(failure) => Err(ToolError::Passed(failure)),
        },
        ToolInvocation::CreateOrganization(ended) => match ended {
            Invocation::Answered(content) => hand_back(CREATE_ORGANIZATION_TOOL, content),
            Invocation::Domain(error) => Err(
                ToolError::Domain(map_create_organization_error(&error)),
            ),
            Invocation::Runtime(failure) => Err(ToolError::Passed(failure)),
        },
        ToolInvocation::AddMember(ended) => match ended {
            Invocation::Answered(content) => hand_back(ADD_MEMBER_TOOL, content),
            Invocation::Domain(error) => Err(ToolError::Domain(map_add_member_error(&error))),
            Invocation::Runtime(failure) => Err(ToolError::Passed(failure)),
        },
        ToolInvocation::RemoveMember(ended) => match ended {
            Invocation::Answered(content) => hand_back(REMOVE_MEMBER_TOOL, content),
            Invocation::Domain(error) => Err(ToolError::Domain(map_remove_member_error(&error))),
            Invocation::Runtime(failure) => Err(ToolError::Passed(failure)),
        },
    }
}

/// A Domain Error of the call is a Domain Error of the execution, a failure of
/// the call is passed on as it is, and only an answer is handed back.
pub proof fn law_ends_stay_apart<F>(invocation: ToolInvocation<F>)
    ensures
        invocation.refusal() is Some ==> invocation.concluded() == Err::<
            ExecuteResponse<Seq<char>>,
            ToolError<F, Seq<char>>,
        >(ToolError::Domain(invocation.refusal()->0)),
        invocation.passed_failure() is Some ==> invocation.concluded() == Err::<
            ExecuteResponse<Seq<char>>,
            ToolError<F, Seq<char>>,
        >(ToolError::Passed(invocation.passed_failure()->0)),
        invocation.concluded() is Ok ==> invocation.answer() is Some && invocation.answer()->0
            is Ok,
        invocation.answer() is Some && invocation.answer()->0 is Ok ==> invocation.concluded()
            is Ok,
{
}

} // verus!
