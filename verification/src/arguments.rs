//! The JSON Schemas of the Tools' arguments: how they are written, and which
//! arguments they admit.

use vstd::prelude::*;

use crate::agent_tools::Tool;
use crate::contracts::{
    AddMemberRequest, CreateOrganizationRequest, GetOrganizationRequest, RemoveMemberRequest,
};
use crate::names;
use crate::notation;
use crate::postgres_plugin::provider;
use crate::spelling;
use crate::spelling::Words;
use crate::text;

verus! {

/// A value in JSON, as far as arguments go.
pub enum Argument {
    Null,
    Text(Seq<char>),
    Whole(int),
    Other,
}

/// The members of an object in JSON.
pub type Arguments = Map<Seq<char>, Argument>;

/// What a schema demands of a member.
pub enum Rule {
    /// A text with this many characters at least and at most.
    Text { least: int, most: int },
    /// A text or `null`.
    OptionalText,
    /// One of the texts or `null`.
    OptionalChoice(Seq<Seq<char>>),
    /// A whole number in these bounds.
    Whole { least: int, most: int },
}

/// The schema of an object that has no other members.
pub struct ObjectSchema {
    pub required: Seq<Seq<char>>,
    pub names: Seq<Seq<char>>,
    pub rules: Seq<Rule>,
}

impl Rule {
    /// Whether a member keeps the rule.
    pub open spec fn admits(self, argument: Argument) -> bool {
        match (self, argument) {
            (Rule::Text { least, most }, Argument::Text(text)) => least <= text.len() <= most,
            (Rule::OptionalText, Argument::Text(_)) => true,
            (Rule::OptionalText, Argument::Null) => true,
            (Rule::OptionalChoice(choices), Argument::Text(text)) => choices.contains(text),
            (Rule::OptionalChoice(_), Argument::Null) => true,
            (Rule::Whole { least, most }, Argument::Whole(number)) => least <= number <= most,
            _ => false,
        }
    }

    /// How the rule is written.
    pub open spec fn words(self, rest: Words) -> Words {
        match self {
            Rule::Text { least, most } => spelling::word(
                "{ \"type\": \"string\", \"minLength\": "@,
                spelling::word(
                    notation::decimal(least),
                    spelling::word(
                        ", \"maxLength\": "@,
                        spelling::word(notation::decimal(most), spelling::word(" }"@, rest)),
                    ),
                ),
            ),
            Rule::OptionalText => spelling::word("{ \"type\": [\"string\", \"null\"] }"@, rest),
            Rule::OptionalChoice(choices) => spelling::word(
                "{ \"enum\": ["@,
                quoted_words(choices, 0, spelling::word(", null] }"@, rest)),
            ),
            Rule::Whole { least, most } => spelling::word(
                "{ \"type\": \"integer\", \"minimum\": "@,
                spelling::word(
                    notation::decimal(least),
                    spelling::word(
                        ", \"maximum\": "@,
                        spelling::word(notation::decimal(most), spelling::word(" }"@, rest)),
                    ),
                ),
            ),
        }
    }
}

/// The texts from the `k`th on, in quotes and separated by commas.
pub open spec fn quoted_words(texts: Seq<Seq<char>>, k: int, rest: Words) -> Words
    decreases texts.len() - k,
{
    if k >= texts.len() {
        rest
    } else {
        let own = spelling::word(
            "\""@,
            spelling::word(texts[k], spelling::word("\""@, quoted_words(texts, k + 1, rest))),
        );
        if k == 0 {
            own
        } else {
            spelling::word(", "@, own)
        }
    }
}

/// How a schema closes.
pub open spec fn closing_words() -> Words {
    spelling::word("\n  }\n}"@, Words::End)
}

impl ObjectSchema {
    /// Whether an object keeps the schema: it has the required members, no
    /// others than those that the schema names, and each keeps its rule.
    pub open spec fn admits(self, arguments: Arguments) -> bool {
        &&& forall|k: int|
            0 <= k < self.required.len() ==> arguments.contains_key(#[trigger] self.required[k])
        &&& forall|name: Seq<char>| #[trigger]
            arguments.contains_key(name) ==> self.names.contains(name)
        &&& forall|k: int|
            0 <= k < self.names.len() && arguments.contains_key(#[trigger] self.names[k])
                ==> self.rules[k].admits(arguments[self.names[k]])
    }

    /// The members from the `k`th on, with their rules.
    pub open spec fn member_words(self, k: int, rest: Words) -> Words
        decreases self.names.len() - k,
    {
        if k >= self.names.len() {
            rest
        } else {
            let ruled = self.rules[k].words(self.member_words(k + 1, rest));
            let own = spelling::word(
                "    \""@,
                spelling::word(self.names[k], spelling::word("\": "@, ruled)),
            );
            if k == 0 {
                own
            } else {
                spelling::word(",\n"@, own)
            }
        }
    }

    /// How the schema is written.
    pub open spec fn words(self) -> Words {
        spelling::word(
            "{\n  \"type\": \"object\",\n  \"additionalProperties\": false,\n  \"required\": ["@,
            quoted_words(
                self.required,
                0,
                spelling::word(
                    "],\n  \"properties\": {\n"@,
                    self.member_words(0, closing_words()),
                ),
            ),
        )
    }
}

/// What a name in a request may be.
pub open spec fn name_rule() -> Rule {
    Rule::Text { least: 1, most: 256 }
}

/// How long a page may be.
pub open spec fn limit_rule() -> Rule {
    Rule::Whole { least: 1, most: 100 }
}

impl Tool {
    /// The schema of the Tool's arguments.
    pub open spec fn object_schema(self) -> ObjectSchema {
        match self {
            Tool::GetOrganization => ObjectSchema {
                required: seq!["organization_id"@],
                names: seq!["organization_id"@],
                rules: seq![name_rule()],
            },
            Tool::ListOrganizations => ObjectSchema {
                required: seq!["slug"@, "status"@, "limit"@, "cursor"@],
                names: seq!["slug"@, "status"@, "limit"@, "cursor"@],
                rules: seq![
                    Rule::OptionalText,
                    Rule::OptionalChoice(seq!["active"@, "archived"@]),
                    limit_rule(),
                    Rule::OptionalText,
                ],
            },
            Tool::ListMembers => ObjectSchema {
                required: seq!["organization_id"@, "subject"@, "status"@, "limit"@, "cursor"@],
                names: seq!["organization_id"@, "subject"@, "status"@, "limit"@, "cursor"@],
                rules: seq![
                    name_rule(),
                    Rule::OptionalText,
                    Rule::OptionalChoice(seq!["active"@, "removed"@]),
                    limit_rule(),
                    Rule::OptionalText,
                ],
            },
            Tool::CreateOrganization => ObjectSchema {
                required: seq!["idempotency_key"@, "name"@, "owner_subject"@, "slug"@],
                names: seq!["idempotency_key"@, "name"@, "owner_subject"@, "slug"@],
                rules: seq![
                    name_rule(),
                    Rule::Text { least: 1, most: 200 },
                    name_rule(),
                    Rule::Text { least: 1, most: 100 },
                ],
            },
            Tool::AddMember | Tool::RemoveMember => ObjectSchema {
                required: seq!["idempotency_key"@, "organization_id"@, "subject"@],
                names: seq!["idempotency_key"@, "organization_id"@, "subject"@],
                rules: seq![name_rule(), name_rule(), name_rule()],
            },
        }
    }
}

/// How the bounds are written.
proof fn lemma_bounds_are_written()
    ensures
        notation::decimal(1) == "1"@,
        notation::decimal(100) == "100"@,
        notation::decimal(200) == "200"@,
        notation::decimal(256) == "256"@,
{
    reveal_strlit("1");
    reveal_strlit("100");
    reveal_strlit("200");
    reveal_strlit("256");
    reveal_with_fuel(notation::digits, 4);
}

proof fn lemma_get_organization_schema_reads_from_organization_id(tool: Tool)
    requires
        tool is GetOrganization,
    ensures
        spelling::spells(
            tool.schema_text(),
            108,
            tool.object_schema().member_words(0, closing_words()),
        ),
{
    reveal_strlit("{
  \"type\": \"object\",
  \"additionalProperties\": false,
  \"required\": [\"organization_id\"],
  \"properties\": {
    \"organization_id\": { \"type\": \"string\", \"minLength\": 1, \"maxLength\": 256 }
  }
}");
    reveal_strlit("    \"");
    reveal_strlit("organization_id");
    reveal_strlit("\": ");
    reveal_strlit("{ \"type\": \"string\", \"minLength\": ");
    reveal_strlit("1");
    reveal_strlit(", \"maxLength\": ");
    reveal_strlit("256");
    reveal_strlit(" }");
    reveal_strlit("\n  }\n}");
    lemma_bounds_are_written();
    reveal_with_fuel(ObjectSchema::member_words, 2);
    reveal_with_fuel(spelling::spells, 10);
}

proof fn lemma_get_organization_schema_reads(tool: Tool)
    requires
        tool is GetOrganization,
    ensures
        spelling::spells(tool.schema_text(), 0, tool.object_schema().words()),
{
    lemma_get_organization_schema_reads_from_organization_id(tool);
    reveal_strlit("{
  \"type\": \"object\",
  \"additionalProperties\": false,
  \"required\": [\"organization_id\"],
  \"properties\": {
    \"organization_id\": { \"type\": \"string\", \"minLength\": 1, \"maxLength\": 256 }
  }
}");
    reveal_strlit("{\n  \"type\": \"object\",\n  \"additionalProperties\": false,\n  \"required\": [");
    reveal_strlit("\"");
    reveal_strlit("organization_id");
    reveal_strlit("],\n  \"properties\": {\n");
    reveal_with_fuel(spelling::spells, 5);
    reveal_with_fuel(quoted_words, 2);
}

proof fn lemma_list_organizations_schema_reads_from_cursor(tool: Tool)
    requires
        tool is ListOrganizations,
    ensures
        spelling::spells(
            tool.schema_text(),
            290,
            tool.object_schema().member_words(3, closing_words()),
        ),
{
    reveal_strlit("{
  \"type\": \"object\",
  \"additionalProperties\": false,
  \"required\": [\"slug\", \"status\", \"limit\", \"cursor\"],
  \"properties\": {
    \"slug\": { \"type\": [\"string\", \"null\"] },
    \"status\": { \"enum\": [\"active\", \"archived\", null] },
    \"limit\": { \"type\": \"integer\", \"minimum\": 1, \"maximum\": 100 },
    \"cursor\": { \"type\": [\"string\", \"null\"] }
  }
}");
    reveal_strlit(",\n");
    reveal_strlit("    \"");
    reveal_strlit("cursor");
    reveal_strlit("\": ");
    reveal_strlit("{ \"type\": [\"string\", \"null\"] }");
    reveal_strlit("\n  }\n}");
    reveal_with_fuel(ObjectSchema::member_words, 2);
    reveal_with_fuel(spelling::spells, 7);
}

proof fn lemma_list_organizations_schema_reads_from_limit(tool: Tool)
    requires
        tool is ListOrganizations,
    ensures
        spelling::spells(
            tool.schema_text(),
            224,
            tool.object_schema().member_words(2, closing_words()),
        ),
{
    reveal_strlit("{
  \"type\": \"object\",
  \"additionalProperties\": false,
  \"required\": [\"slug\", \"status\", \"limit\", \"cursor\"],
  \"properties\": {
    \"slug\": { \"type\": [\"string\", \"null\"] },
    \"status\": { \"enum\": [\"active\", \"archived\", null] },
    \"limit\": { \"type\": \"integer\", \"minimum\": 1, \"maximum\": 100 },
    \"cursor\": { \"type\": [\"string\", \"null\"] }
  }
}");
    reveal_strlit(",\n");
    reveal_strlit("    \"");
    reveal_strlit("limit");
    reveal_strlit("\": ");
    reveal_strlit("{ \"type\": \"integer\", \"minimum\": ");
    reveal_strlit("1");
    reveal_strlit(", \"maximum\": ");
    reveal_strlit("100");
    reveal_strlit(" }");
    lemma_bounds_are_written();
    lemma_list_organizations_schema_reads_from_cursor(tool);
    reveal_with_fuel(spelling::spells, 9);
}

proof fn lemma_list_organizations_schema_reads_from_status(tool: Tool)
    requires
        tool is ListOrganizations,
    ensures
        spelling::spells(
            tool.schema_text(),
            168,
            tool.object_schema().member_words(1, closing_words()),
        ),
{
    reveal_strlit("{
  \"type\": \"object\",
  \"additionalProperties\": false,
  \"required\": [\"slug\", \"status\", \"limit\", \"cursor\"],
  \"properties\": {
    \"slug\": { \"type\": [\"string\", \"null\"] },
    \"status\": { \"enum\": [\"active\", \"archived\", null] },
    \"limit\": { \"type\": \"integer\", \"minimum\": 1, \"maximum\": 100 },
    \"cursor\": { \"type\": [\"string\", \"null\"] }
  }
}");
    reveal_strlit(",\n");
    reveal_strlit("    \"");
    reveal_strlit("status");
    reveal_strlit("\": ");
    reveal_strlit("{ \"enum\": [");
    reveal_strlit("\"");
    reveal_strlit("active");
    reveal_strlit("archived");
    reveal_strlit(", ");
    reveal_strlit(", null] }");
    reveal_with_fuel(quoted_words, 3);
    lemma_list_organizations_schema_reads_from_limit(tool);
    reveal_with_fuel(spelling::spells, 13);
}

proof fn lemma_list_organizations_schema_reads_from_slug(tool: Tool)
    requires
        tool is ListOrganizations,
    ensures
        spelling::spells(
            tool.schema_text(),
            126,
            tool.object_schema().member_words(0, closing_words()),
        ),
{
    reveal_strlit("{
  \"type\": \"object\",
  \"additionalProperties\": false,
  \"required\": [\"slug\", \"status\", \"limit\", \"cursor\"],
  \"properties\": {
    \"slug\": { \"type\": [\"string\", \"null\"] },
    \"status\": { \"enum\": [\"active\", \"archived\", null] },
    \"limit\": { \"type\": \"integer\", \"minimum\": 1, \"maximum\": 100 },
    \"cursor\": { \"type\": [\"string\", \"null\"] }
  }
}");
    reveal_strlit("    \"");
    reveal_strlit("slug");
    reveal_strlit("\": ");
    reveal_strlit("{ \"type\": [\"string\", \"null\"] }");
    lemma_list_organizations_schema_reads_from_status(tool);
    reveal_with_fuel(spelling::spells, 4);
}

proof fn lemma_list_organizations_schema_reads(tool: Tool)
    requires
        tool is ListOrganizations,
    ensures
        spelling::spells(tool.schema_text(), 0, tool.object_schema().words()),
{
    lemma_list_organizations_schema_reads_from_slug(tool);
    reveal_strlit("{
  \"type\": \"object\",
  \"additionalProperties\": false,
  \"required\": [\"slug\", \"status\", \"limit\", \"cursor\"],
  \"properties\": {
    \"slug\": { \"type\": [\"string\", \"null\"] },
    \"status\": { \"enum\": [\"active\", \"archived\", null] },
    \"limit\": { \"type\": \"integer\", \"minimum\": 1, \"maximum\": 100 },
    \"cursor\": { \"type\": [\"string\", \"null\"] }
  }
}");
    reveal_strlit("{\n  \"type\": \"object\",\n  \"additionalProperties\": false,\n  \"required\": [");
    reveal_strlit("\"");
    reveal_strlit("slug");
    reveal_strlit("status");
    reveal_strlit("limit");
    reveal_strlit("cursor");
    reveal_strlit(", ");
    reveal_strlit("],\n  \"properties\": {\n");
    reveal_with_fuel(spelling::spells, 17);
    reveal_with_fuel(quoted_words, 5);
}

proof fn lemma_list_members_schema_reads_from_cursor(tool: Tool)
    requires
        tool is ListMembers,
    ensures
        spelling::spells(
            tool.schema_text(),
            393,
            tool.object_schema().member_words(4, closing_words()),
        ),
{
    reveal_strlit("{
  \"type\": \"object\",
  \"additionalProperties\": false,
  \"required\": [\"organization_id\", \"subject\", \"status\", \"limit\", \"cursor\"],
  \"properties\": {
    \"organization_id\": { \"type\": \"string\", \"minLength\": 1, \"maxLength\": 256 },
    \"subject\": { \"type\": [\"string\", \"null\"] },
    \"status\": { \"enum\": [\"active\", \"removed\", null] },
    \"limit\": { \"type\": \"integer\", \"minimum\": 1, \"maximum\": 100 },
    \"cursor\": { \"type\": [\"string\", \"null\"] }
  }
}");
    reveal_strlit(",\n");
    reveal_strlit("    \"");
    reveal_strlit("cursor");
    reveal_strlit("\": ");
    reveal_strlit("{ \"type\": [\"string\", \"null\"] }");
    reveal_strlit("\n  }\n}");
    reveal_with_fuel(ObjectSchema::member_words, 2);
    reveal_with_fuel(spelling::spells, 7);
}

proof fn lemma_list_members_schema_reads_from_limit(tool: Tool)
    requires
        tool is ListMembers,
    ensures
        spelling::spells(
            tool.schema_text(),
            327,
            tool.object_schema().member_words(3, closing_words()),
        ),
{
    reveal_strlit("{
  \"type\": \"object\",
  \"additionalProperties\": false,
  \"required\": [\"organization_id\", \"subject\", \"status\", \"limit\", \"cursor\"],
  \"properties\": {
    \"organization_id\": { \"type\": \"string\", \"minLength\": 1, \"maxLength\": 256 },
    \"subject\": { \"type\": [\"string\", \"null\"] },
    \"status\": { \"enum\": [\"active\", \"removed\", null] },
    \"limit\": { \"type\": \"integer\", \"minimum\": 1, \"maximum\": 100 },
    \"cursor\": { \"type\": [\"string\", \"null\"] }
  }
}");
    reveal_strlit(",\n");
    reveal_strlit("    \"");
    reveal_strlit("limit");
    reveal_strlit("\": ");
    reveal_strlit("{ \"type\": \"integer\", \"minimum\": ");
    reveal_strlit("1");
    reveal_strlit(", \"maximum\": ");
    reveal_strlit("100");
    reveal_strlit(" }");
    lemma_bounds_are_written();
    lemma_list_members_schema_reads_from_cursor(tool);
    reveal_with_fuel(spelling::spells, 9);
}

proof fn lemma_list_members_schema_reads_from_status(tool: Tool)
    requires
        tool is ListMembers,
    ensures
        spelling::spells(
            tool.schema_text(),
            272,
            tool.object_schema().member_words(2, closing_words()),
        ),
{
    reveal_strlit("{
  \"type\": \"object\",
  \"additionalProperties\": false,
  \"required\": [\"organization_id\", \"subject\", \"status\", \"limit\", \"cursor\"],
  \"properties\": {
    \"organization_id\": { \"type\": \"string\", \"minLength\": 1, \"maxLength\": 256 },
    \"subject\": { \"type\": [\"string\", \"null\"] },
    \"status\": { \"enum\": [\"active\", \"removed\", null] },
    \"limit\": { \"type\": \"integer\", \"minimum\": 1, \"maximum\": 100 },
    \"cursor\": { \"type\": [\"string\", \"null\"] }
  }
}");
    reveal_strlit(",\n");
    reveal_strlit("    \"");
    reveal_strlit("status");
    reveal_strlit("\": ");
    reveal_strlit("{ \"enum\": [");
    reveal_strlit("\"");
    reveal_strlit("active");
    reveal_strlit("removed");
    reveal_strlit(", ");
    reveal_strlit(", null] }");
    reveal_with_fuel(quoted_words, 3);
    lemma_list_members_schema_reads_from_limit(tool);
    reveal_with_fuel(spelling::spells, 13);
}

proof fn lemma_list_members_schema_reads_from_subject(tool: Tool)
    requires
        tool is ListMembers,
    ensures
        spelling::spells(
            tool.schema_text(),
            225,
            tool.object_schema().member_words(1, closing_words()),
        ),
{
    reveal_strlit("{
  \"type\": \"object\",
  \"additionalProperties\": false,
  \"required\": [\"organization_id\", \"subject\", \"status\", \"limit\", \"cursor\"],
  \"properties\": {
    \"organization_id\": { \"type\": \"string\", \"minLength\": 1, \"maxLength\": 256 },
    \"subject\": { \"type\": [\"string\", \"null\"] },
    \"status\": { \"enum\": [\"active\", \"removed\", null] },
    \"limit\": { \"type\": \"integer\", \"minimum\": 1, \"maximum\": 100 },
    \"cursor\": { \"type\": [\"string\", \"null\"] }
  }
}");
    reveal_strlit(",\n");
    reveal_strlit("    \"");
    reveal_strlit("subject");
    reveal_strlit("\": ");
    reveal_strlit("{ \"type\": [\"string\", \"null\"] }");
    lemma_list_members_schema_reads_from_status(tool);
    reveal_with_fuel(spelling::spells, 5);
}

proof fn lemma_list_members_schema_reads_from_organization_id(tool: Tool)
    requires
        tool is ListMembers,
    ensures
        spelling::spells(
            tool.schema_text(),
            148,
            tool.object_schema().member_words(0, closing_words()),
        ),
{
    reveal_strlit("{
  \"type\": \"object\",
  \"additionalProperties\": false,
  \"required\": [\"organization_id\", \"subject\", \"status\", \"limit\", \"cursor\"],
  \"properties\": {
    \"organization_id\": { \"type\": \"string\", \"minLength\": 1, \"maxLength\": 256 },
    \"subject\": { \"type\": [\"string\", \"null\"] },
    \"status\": { \"enum\": [\"active\", \"removed\", null] },
    \"limit\": { \"type\": \"integer\", \"minimum\": 1, \"maximum\": 100 },
    \"cursor\": { \"type\": [\"string\", \"null\"] }
  }
}");
    reveal_strlit("    \"");
    reveal_strlit("organization_id");
    reveal_strlit("\": ");
    reveal_strlit("{ \"type\": \"string\", \"minLength\": ");
    reveal_strlit("1");
    reveal_strlit(", \"maxLength\": ");
    reveal_strlit("256");
    reveal_strlit(" }");
    lemma_bounds_are_written();
    lemma_list_members_schema_reads_from_subject(tool);
    reveal_with_fuel(spelling::spells, 8);
}

proof fn lemma_list_members_schema_reads(tool: Tool)
    requires
        tool is ListMembers,
    ensures
        spelling::spells(tool.schema_text(), 0, tool.object_schema().words()),
{
    lemma_list_members_schema_reads_from_organization_id(tool);
    reveal_strlit("{
  \"type\": \"object\",
  \"additionalProperties\": false,
  \"required\": [\"organization_id\", \"subject\", \"status\", \"limit\", \"cursor\"],
  \"properties\": {
    \"organization_id\": { \"type\": \"string\", \"minLength\": 1, \"maxLength\": 256 },
    \"subject\": { \"type\": [\"string\", \"null\"] },
    \"status\": { \"enum\": [\"active\", \"removed\", null] },
    \"limit\": { \"type\": \"integer\", \"minimum\": 1, \"maximum\": 100 },
    \"cursor\": { \"type\": [\"string\", \"null\"] }
  }
}");
    reveal_strlit("{\n  \"type\": \"object\",\n  \"additionalProperties\": false,\n  \"required\": [");
    reveal_strlit("\"");
    reveal_strlit("organization_id");
    reveal_strlit("subject");
    reveal_strlit("status");
    reveal_strlit("limit");
    reveal_strlit("cursor");
    reveal_strlit(", ");
    reveal_strlit("],\n  \"properties\": {\n");
    reveal_with_fuel(spelling::spells, 21);
    reveal_with_fuel(quoted_words, 6);
}

proof fn lemma_create_organization_schema_reads_from_slug(tool: Tool)
    requires
        tool is CreateOrganization,
    ensures
        spelling::spells(
            tool.schema_text(),
            363,
            tool.object_schema().member_words(3, closing_words()),
        ),
{
    reveal_strlit("{
  \"type\": \"object\",
  \"additionalProperties\": false,
  \"required\": [\"idempotency_key\", \"name\", \"owner_subject\", \"slug\"],
  \"properties\": {
    \"idempotency_key\": { \"type\": \"string\", \"minLength\": 1, \"maxLength\": 256 },
    \"name\": { \"type\": \"string\", \"minLength\": 1, \"maxLength\": 200 },
    \"owner_subject\": { \"type\": \"string\", \"minLength\": 1, \"maxLength\": 256 },
    \"slug\": { \"type\": \"string\", \"minLength\": 1, \"maxLength\": 100 }
  }
}");
    reveal_strlit(",\n");
    reveal_strlit("    \"");
    reveal_strlit("slug");
    reveal_strlit("\": ");
    reveal_strlit("{ \"type\": \"string\", \"minLength\": ");
    reveal_strlit("1");
    reveal_strlit(", \"maxLength\": ");
    reveal_strlit("100");
    reveal_strlit(" }");
    reveal_strlit("\n  }\n}");
    lemma_bounds_are_written();
    reveal_with_fuel(ObjectSchema::member_words, 2);
    reveal_with_fuel(spelling::spells, 11);
}

proof fn lemma_create_organization_schema_reads_from_owner_subject(tool: Tool)
    requires
        tool is CreateOrganization,
    ensures
        spelling::spells(
            tool.schema_text(),
            286,
            tool.object_schema().member_words(2, closing_words()),
        ),
{
    reveal_strlit("{
  \"type\": \"object\",
  \"additionalProperties\": false,
  \"required\": [\"idempotency_key\", \"name\", \"owner_subject\", \"slug\"],
  \"properties\": {
    \"idempotency_key\": { \"type\": \"string\", \"minLength\": 1, \"maxLength\": 256 },
    \"name\": { \"type\": \"string\", \"minLength\": 1, \"maxLength\": 200 },
    \"owner_subject\": { \"type\": \"string\", \"minLength\": 1, \"maxLength\": 256 },
    \"slug\": { \"type\": \"string\", \"minLength\": 1, \"maxLength\": 100 }
  }
}");
    reveal_strlit(",\n");
    reveal_strlit("    \"");
    reveal_strlit("owner_subject");
    reveal_strlit("\": ");
    reveal_strlit("{ \"type\": \"string\", \"minLength\": ");
    reveal_strlit("1");
    reveal_strlit(", \"maxLength\": ");
    reveal_strlit("256");
    reveal_strlit(" }");
    lemma_bounds_are_written();
    lemma_create_organization_schema_reads_from_slug(tool);
    reveal_with_fuel(spelling::spells, 9);
}

proof fn lemma_create_organization_schema_reads_from_name(tool: Tool)
    requires
        tool is CreateOrganization,
    ensures
        spelling::spells(
            tool.schema_text(),
            218,
            tool.object_schema().member_words(1, closing_words()),
        ),
{
    reveal_strlit("{
  \"type\": \"object\",
  \"additionalProperties\": false,
  \"required\": [\"idempotency_key\", \"name\", \"owner_subject\", \"slug\"],
  \"properties\": {
    \"idempotency_key\": { \"type\": \"string\", \"minLength\": 1, \"maxLength\": 256 },
    \"name\": { \"type\": \"string\", \"minLength\": 1, \"maxLength\": 200 },
    \"owner_subject\": { \"type\": \"string\", \"minLength\": 1, \"maxLength\": 256 },
    \"slug\": { \"type\": \"string\", \"minLength\": 1, \"maxLength\": 100 }
  }
}");
    reveal_strlit(",\n");
    reveal_strlit("    \"");
    reveal_strlit("name");
    reveal_strlit("\": ");
    reveal_strlit("{ \"type\": \"string\", \"minLength\": ");
    reveal_strlit("1");
    reveal_strlit(", \"maxLength\": ");
    reveal_strlit("200");
    reveal_strlit(" }");
    lemma_bounds_are_written();
    lemma_create_organization_schema_reads_from_owner_subject(tool);
    reveal_with_fuel(spelling::spells, 9);
}

proof fn lemma_create_organization_schema_reads_from_idempotency_key(tool: Tool)
    requires
        tool is CreateOrganization,
    ensures
        spelling::spells(
            tool.schema_text(),
            141,
            tool.object_schema().member_words(0, closing_words()),
        ),
{
    reveal_strlit("{
  \"type\": \"object\",
  \"additionalProperties\": false,
  \"required\": [\"idempotency_key\", \"name\", \"owner_subject\", \"slug\"],
  \"properties\": {
    \"idempotency_key\": { \"type\": \"string\", \"minLength\": 1, \"maxLength\": 256 },
    \"name\": { \"type\": \"string\", \"minLength\": 1, \"maxLength\": 200 },
    \"owner_subject\": { \"type\": \"string\", \"minLength\": 1, \"maxLength\": 256 },
    \"slug\": { \"type\": \"string\", \"minLength\": 1, \"maxLength\": 100 }
  }
}");
    reveal_strlit("    \"");
    reveal_strlit("idempotency_key");
    reveal_strlit("\": ");
    reveal_strlit("{ \"type\": \"string\", \"minLength\": ");
    reveal_strlit("1");
    reveal_strlit(", \"maxLength\": ");
    reveal_strlit("256");
    reveal_strlit(" }");
    lemma_bounds_are_written();
    lemma_create_organization_schema_reads_from_name(tool);
    reveal_with_fuel(spelling::spells, 8);
}

proof fn lemma_create_organization_schema_reads(tool: Tool)
    requires
        tool is CreateOrganization,
    ensures
        spelling::spells(tool.schema_text(), 0, tool.object_schema().words()),
{
    lemma_create_organization_schema_reads_from_idempotency_key(tool);
    reveal_strlit("{
  \"type\": \"object\",
  \"additionalProperties\": false,
  \"required\": [\"idempotency_key\", \"name\", \"owner_subject\", \"slug\"],
  \"properties\": {
    \"idempotency_key\": { \"type\": \"string\", \"minLength\": 1, \"maxLength\": 256 },
    \"name\": { \"type\": \"string\", \"minLength\": 1, \"maxLength\": 200 },
    \"owner_subject\": { \"type\": \"string\", \"minLength\": 1, \"maxLength\": 256 },
    \"slug\": { \"type\": \"string\", \"minLength\": 1, \"maxLength\": 100 }
  }
}");
    reveal_strlit("{\n  \"type\": \"object\",\n  \"additionalProperties\": false,\n  \"required\": [");
    reveal_strlit("\"");
    reveal_strlit("idempotency_key");
    reveal_strlit("name");
    reveal_strlit("owner_subject");
    reveal_strlit("slug");
    reveal_strlit(", ");
    reveal_strlit("],\n  \"properties\": {\n");
    reveal_with_fuel(spelling::spells, 17);
    reveal_with_fuel(quoted_words, 5);
}

proof fn lemma_membership_command_schema_reads_from_subject(tool: Tool)
    requires
        tool is AddMember || tool is RemoveMember,
    ensures
        spelling::spells(
            tool.schema_text(),
            294,
            tool.object_schema().member_words(2, closing_words()),
        ),
{
    reveal_strlit("{
  \"type\": \"object\",
  \"additionalProperties\": false,
  \"required\": [\"idempotency_key\", \"organization_id\", \"subject\"],
  \"properties\": {
    \"idempotency_key\": { \"type\": \"string\", \"minLength\": 1, \"maxLength\": 256 },
    \"organization_id\": { \"type\": \"string\", \"minLength\": 1, \"maxLength\": 256 },
    \"subject\": { \"type\": \"string\", \"minLength\": 1, \"maxLength\": 256 }
  }
}");
    reveal_strlit(",\n");
    reveal_strlit("    \"");
    reveal_strlit("subject");
    reveal_strlit("\": ");
    reveal_strlit("{ \"type\": \"string\", \"minLength\": ");
    reveal_strlit("1");
    reveal_strlit(", \"maxLength\": ");
    reveal_strlit("256");
    reveal_strlit(" }");
    reveal_strlit("\n  }\n}");
    lemma_bounds_are_written();
    reveal_with_fuel(ObjectSchema::member_words, 2);
    reveal_with_fuel(spelling::spells, 11);
}

proof fn lemma_membership_command_schema_reads_from_organization_id(tool: Tool)
    requires
        tool is AddMember || tool is RemoveMember,
    ensures
        spelling::spells(
            tool.schema_text(),
            215,
            tool.object_schema().member_words(1, closing_words()),
        ),
{
    reveal_strlit("{
  \"type\": \"object\",
  \"additionalProperties\": false,
  \"required\": [\"idempotency_key\", \"organization_id\", \"subject\"],
  \"properties\": {
    \"idempotency_key\": { \"type\": \"string\", \"minLength\": 1, \"maxLength\": 256 },
    \"organization_id\": { \"type\": \"string\", \"minLength\": 1, \"maxLength\": 256 },
    \"subject\": { \"type\": \"string\", \"minLength\": 1, \"maxLength\": 256 }
  }
}");
    reveal_strlit(",\n");
    reveal_strlit("    \"");
    reveal_strlit("organization_id");
    reveal_strlit("\": ");
    reveal_strlit("{ \"type\": \"string\", \"minLength\": ");
    reveal_strlit("1");
    reveal_strlit(", \"maxLength\": ");
    reveal_strlit("256");
    reveal_strlit(" }");
    lemma_bounds_are_written();
    lemma_membership_command_schema_reads_from_subject(tool);
    reveal_with_fuel(spelling::spells, 9);
}

proof fn lemma_membership_command_schema_reads_from_idempotency_key(tool: Tool)
    requires
        tool is AddMember || tool is RemoveMember,
    ensures
        spelling::spells(
            tool.schema_text(),
            138,
            tool.object_schema().member_words(0, closing_words()),
        ),
{
    reveal_strlit("{
  \"type\": \"object\",
  \"additionalProperties\": false,
  \"required\": [\"idempotency_key\", \"organization_id\", \"subject\"],
  \"properties\": {
    \"idempotency_key\": { \"type\": \"string\", \"minLength\": 1, \"maxLength\": 256 },
    \"organization_id\": { \"type\": \"string\", \"minLength\": 1, \"maxLength\": 256 },
    \"subject\": { \"type\": \"string\", \"minLength\": 1, \"maxLength\": 256 }
  }
}");
    reveal_strlit("    \"");
    reveal_strlit("idempotency_key");
    reveal_strlit("\": ");
    reveal_strlit("{ \"type\": \"string\", \"minLength\": ");
    reveal_strlit("1");
    reveal_strlit(", \"maxLength\": ");
    reveal_strlit("256");
    reveal_strlit(" }");
    lemma_bounds_are_written();
    lemma_membership_command_schema_reads_from_organization_id(tool);
    reveal_with_fuel(spelling::spells, 8);
}

proof fn lemma_membership_command_schema_reads(tool: Tool)
    requires
        tool is AddMember || tool is RemoveMember,
    ensures
        spelling::spells(tool.schema_text(), 0, tool.object_schema().words()),
{
    lemma_membership_command_schema_reads_from_idempotency_key(tool);
    reveal_strlit("{
  \"type\": \"object\",
  \"additionalProperties\": false,
  \"required\": [\"idempotency_key\", \"organization_id\", \"subject\"],
  \"properties\": {
    \"idempotency_key\": { \"type\": \"string\", \"minLength\": 1, \"maxLength\": 256 },
    \"organization_id\": { \"type\": \"string\", \"minLength\": 1, \"maxLength\": 256 },
    \"subject\": { \"type\": \"string\", \"minLength\": 1, \"maxLength\": 256 }
  }
}");
    reveal_strlit("{\n  \"type\": \"object\",\n  \"additionalProperties\": false,\n  \"required\": [");
    reveal_strlit("\"");
    reveal_strlit("idempotency_key");
    reveal_strlit("organization_id");
    reveal_strlit("subject");
    reveal_strlit(", ");
    reveal_strlit("],\n  \"properties\": {\n");
    reveal_with_fuel(spelling::spells, 13);
    reveal_with_fuel(quoted_words, 4);
}

/// What a Tool's arguments are decoded into.
pub enum ToolRequest {
    GetOrganization(GetOrganizationRequest<Seq<char>>),
    ListOrganizations {
        slug: Option<Seq<char>>,
        status: Option<Seq<char>>,
        limit: int,
        cursor: Option<Seq<char>>,
    },
    ListMembers {
        organization_id: Seq<char>,
        subject: Option<Seq<char>>,
        status: Option<Seq<char>>,
        limit: int,
        cursor: Option<Seq<char>>,
    },
    CreateOrganization(CreateOrganizationRequest<Seq<char>>),
    AddMember(AddMemberRequest<Seq<char>>),
    RemoveMember(RemoveMemberRequest<Seq<char>>),
}

/// The member that stands for a text that may be missing.
pub open spec fn optional(text: Option<Seq<char>>) -> Argument {
    match text {
        Some(text) => Argument::Text(text),
        None => Argument::Null,
    }
}

/// The text that a member stands for, if it stands for one.
pub open spec fn optional_text(argument: Argument) -> Option<Seq<char>> {
    match argument {
        Argument::Text(text) => Some(text),
        _ => None,
    }
}

/// Whether the text has at least one character and at most this many.
pub open spec fn fits(text: Seq<char>, most: int) -> bool {
    1 <= text.len() <= most
}

impl ToolRequest {
    /// The Tool that is called with the request.
    pub open spec fn tool(self) -> Tool {
        match self {
            ToolRequest::GetOrganization(_) => Tool::GetOrganization,
            ToolRequest::ListOrganizations { .. } => Tool::ListOrganizations,
            ToolRequest::ListMembers { .. } => Tool::ListMembers,
            ToolRequest::CreateOrganization(_) => Tool::CreateOrganization,
            ToolRequest::AddMember(_) => Tool::AddMember,
            ToolRequest::RemoveMember(_) => Tool::RemoveMember,
        }
    }

    /// The object in JSON that is decoded into the request: one member for
    /// each of its fields, under the field's name.
    pub open spec fn arguments(self) -> Arguments {
        match self {
            ToolRequest::GetOrganization(request) => map![
                "organization_id"@ => Argument::Text(request.organization_id),
            ],
            ToolRequest::ListOrganizations { slug, status, limit, cursor } => map![
                "slug"@ => optional(slug),
                "status"@ => optional(status),
                "limit"@ => Argument::Whole(limit),
                "cursor"@ => optional(cursor),
            ],
            ToolRequest::ListMembers { organization_id, subject, status, limit, cursor } => map![
                "organization_id"@ => Argument::Text(organization_id),
                "subject"@ => optional(subject),
                "status"@ => optional(status),
                "limit"@ => Argument::Whole(limit),
                "cursor"@ => optional(cursor),
            ],
            ToolRequest::CreateOrganization(request) => map![
                "idempotency_key"@ => Argument::Text(request.idempotency_key),
                "name"@ => Argument::Text(request.name),
                "owner_subject"@ => Argument::Text(request.owner_subject),
                "slug"@ => Argument::Text(request.slug),
            ],
            ToolRequest::AddMember(request) => map![
                "idempotency_key"@ => Argument::Text(request.idempotency_key),
                "organization_id"@ => Argument::Text(request.organization_id),
                "subject"@ => Argument::Text(request.subject),
            ],
            ToolRequest::RemoveMember(request) => map![
                "idempotency_key"@ => Argument::Text(request.idempotency_key),
                "organization_id"@ => Argument::Text(request.organization_id),
                "subject"@ => Argument::Text(request.subject),
            ],
        }
    }

    /// Whether the fields of the request are as long as they may be, the
    /// status is one that there is, and the page is neither empty nor too long.
    pub open spec fn is_bounded(self) -> bool {
        match self {
            ToolRequest::GetOrganization(request) => fits(request.organization_id, 256),
            ToolRequest::ListOrganizations { slug, status, limit, cursor } => {
                &&& status is None || status == Some("active"@) || status == Some("archived"@)
                &&& 1 <= limit <= 100
            },
            ToolRequest::ListMembers { organization_id, subject, status, limit, cursor } => {
                &&& fits(organization_id, 256)
                &&& status is None || status == Some("active"@) || status == Some("removed"@)
                &&& 1 <= limit <= 100
            },
            ToolRequest::CreateOrganization(request) => {
                &&& fits(request.idempotency_key, 256)
                &&& fits(request.name, 200)
                &&& fits(request.owner_subject, 256)
                &&& fits(request.slug, 100)
            },
            ToolRequest::AddMember(request) => {
                &&& fits(request.idempotency_key, 256)
                &&& fits(request.organization_id, 256)
                &&& fits(request.subject, 256)
            },
            ToolRequest::RemoveMember(request) => {
                &&& fits(request.idempotency_key, 256)
                &&& fits(request.organization_id, 256)
                &&& fits(request.subject, 256)
            },
        }
    }
}

/// The request of the Tool that the arguments decode into, where they do.
spec fn decoded(tool: Tool, arguments: Arguments) -> ToolRequest {
    let text = |name: Seq<char>| arguments[name]->Text_0;
    let choice = |name: Seq<char>| optional_text(arguments[name]);
    match tool {
        Tool::GetOrganization => ToolRequest::GetOrganization(
            GetOrganizationRequest { organization_id: text("organization_id"@) },
        ),
        Tool::ListOrganizations => ToolRequest::ListOrganizations {
            slug: choice("slug"@),
            status: choice("status"@),
            limit: arguments["limit"@]->Whole_0,
            cursor: choice("cursor"@),
        },
        Tool::ListMembers => ToolRequest::ListMembers {
            organization_id: text("organization_id"@),
            subject: choice("subject"@),
            status: choice("status"@),
            limit: arguments["limit"@]->Whole_0,
            cursor: choice("cursor"@),
        },
        Tool::CreateOrganization => ToolRequest::CreateOrganization(
            CreateOrganizationRequest {
                idempotency_key: text("idempotency_key"@),
                name: text("name"@),
                owner_subject: text("owner_subject"@),
                slug: text("slug"@),
            },
        ),
        Tool::AddMember => ToolRequest::AddMember(
            AddMemberRequest {
                idempotency_key: text("idempotency_key"@),
                organization_id: text("organization_id"@),
                subject: text("subject"@),
            },
        ),
        Tool::RemoveMember => ToolRequest::RemoveMember(
            RemoveMemberRequest {
                idempotency_key: text("idempotency_key"@),
                organization_id: text("organization_id"@),
                subject: text("subject"@),
            },
        ),
    }
}

/// The names of the fields are different from each other.
proof fn lemma_names_differ()
    ensures
        "cursor"@.len() == 6 && "cursor"@[0] == 'c',
        "idempotency_key"@.len() == 15 && "idempotency_key"@[0] == 'i',
        "limit"@.len() == 5,
        "name"@.len() == 4 && "name"@[0] == 'n',
        "organization_id"@.len() == 15 && "organization_id"@[0] == 'o',
        "owner_subject"@.len() == 13,
        "slug"@.len() == 4 && "slug"@[0] == 's',
        "status"@.len() == 6 && "status"@[0] == 's',
        "subject"@.len() == 7,
{
    reveal_strlit("cursor");
    reveal_strlit("idempotency_key");
    reveal_strlit("limit");
    reveal_strlit("name");
    reveal_strlit("organization_id");
    reveal_strlit("owner_subject");
    reveal_strlit("slug");
    reveal_strlit("status");
    reveal_strlit("subject");
}

/// A bounded request's arguments keep the schema of its Tool.
proof fn lemma_bounded_requests_are_admitted(request: ToolRequest)
    ensures
        request.tool().object_schema().admits(request.arguments()) == request.is_bounded(),
{
    lemma_names_differ();
    let schema = request.tool().object_schema();
    let arguments = request.arguments();
    assert(forall|k: int|
        0 <= k < schema.required.len() ==> arguments.contains_key(#[trigger] schema.required[k]));
    assert forall|name: Seq<char>| #[trigger]
        arguments.contains_key(name) implies schema.names.contains(name) by {
        assert(0 < schema.names.len());
        assert(schema.names.contains(schema.names[0]));
        if schema.names.len() > 1 {
            assert(schema.names.contains(schema.names[1]));
            assert(schema.names.contains(schema.names[2]));
        }
        if schema.names.len() > 3 {
            assert(schema.names.contains(schema.names[3]));
        }
        if schema.names.len() > 4 {
            assert(schema.names.contains(schema.names[4]));
        }
    }
    if request is ListOrganizations {
        let choices = seq!["active"@, "archived"@];
        assert(choices.contains(choices[0]) && choices.contains(choices[1]));
    } else if request is ListMembers {
        let choices = seq!["active"@, "removed"@];
        assert(choices.contains(choices[0]) && choices.contains(choices[1]));
    }
    let kept = forall|k: int|
        0 <= k < schema.names.len() && arguments.contains_key(#[trigger] schema.names[k])
            ==> schema.rules[k].admits(arguments[schema.names[k]]);
    if schema.admits(arguments) {
        assert(arguments.contains_key(schema.names[0]));
        if schema.names.len() > 1 {
            assert(arguments.contains_key(schema.names[1]));
            assert(arguments.contains_key(schema.names[2]));
        }
        if schema.names.len() > 3 {
            assert(arguments.contains_key(schema.names[3]));
        }
        if schema.names.len() > 4 {
            assert(arguments.contains_key(schema.names[4]));
        }
        assert(request.is_bounded());
    }
    if request.is_bounded() {
        assert(kept);
    }
}

/// Arguments that keep a Tool's schema are those of a request of the Tool.
proof fn lemma_admitted_arguments_are_of_a_request(tool: Tool, arguments: Arguments)
    requires
        tool.object_schema().admits(arguments),
    ensures
        decoded(tool, arguments).tool() == tool,
        decoded(tool, arguments).arguments() == arguments,
{
    lemma_names_differ();
    let schema = tool.object_schema();
    assert(schema.names == schema.required);
    assert(arguments.contains_key(schema.required[0]));
    assert(schema.rules[0].admits(arguments[schema.names[0]]));
    if schema.names.len() > 1 {
        assert(arguments.contains_key(schema.required[1]));
        assert(arguments.contains_key(schema.required[2]));
        assert(schema.rules[1].admits(arguments[schema.names[1]]));
        assert(schema.rules[2].admits(arguments[schema.names[2]]));
    }
    if schema.names.len() > 3 {
        assert(arguments.contains_key(schema.required[3]));
        assert(schema.rules[3].admits(arguments[schema.names[3]]));
    }
    if schema.names.len() > 4 {
        assert(arguments.contains_key(schema.required[4]));
        assert(schema.rules[4].admits(arguments[schema.names[4]]));
    }
    assert(decoded(tool, arguments).arguments() =~= arguments);
}

/// The published schema of a Tool is one that admits exactly the arguments
/// which decode into a request of that Tool: an object with the fields of the
/// request, all of them and no others, each in its bounds.
pub proof fn law_schema_admits_what_decodes(tool: Tool, arguments: Arguments)
    ensures
        spelling::spells(tool.schema_text(), 0, tool.object_schema().words()),
        tool.object_schema().admits(arguments) <==> exists|request: ToolRequest|
            request.tool() == tool && #[trigger] request.arguments() == arguments
                && request.is_bounded(),
{
    match tool {
        Tool::GetOrganization => lemma_get_organization_schema_reads(tool),
        Tool::ListOrganizations => lemma_list_organizations_schema_reads(tool),
        Tool::ListMembers => lemma_list_members_schema_reads(tool),
        Tool::CreateOrganization => lemma_create_organization_schema_reads(tool),
        Tool::AddMember => lemma_membership_command_schema_reads(tool),
        Tool::RemoveMember => lemma_membership_command_schema_reads(tool),
    }
    assert forall|request: ToolRequest|
        request.tool() == tool && #[trigger] request.arguments() == arguments
            && request.is_bounded() implies tool.object_schema().admits(arguments) by {
        lemma_bounded_requests_are_admitted(request);
    }
    if tool.object_schema().admits(arguments) {
        lemma_admitted_arguments_are_of_a_request(tool, arguments);
        lemma_bounded_requests_are_admitted(decoded(tool, arguments));
    }
}

/// The properties that the published schema of a Tool requires and names are
/// the fields of the request, whatever they hold.
pub proof fn law_schema_names_the_fields(request: ToolRequest)
    ensures
        spelling::spells(
            request.tool().schema_text(),
            0,
            request.tool().object_schema().words(),
        ),
        request.tool().object_schema().required.to_set() == request.arguments().dom(),
        request.tool().object_schema().names.to_set() == request.arguments().dom(),
{
    law_schema_admits_what_decodes(request.tool(), request.arguments());
    let schema = request.tool().object_schema();
    let fields = request.arguments().dom();
    assert(schema.names == schema.required);
    assert forall|name: Seq<char>|
        schema.names.to_set().contains(name) == fields.contains(name) by {
        assert(schema.names.contains(schema.names[0]));
        if schema.names.len() > 1 {
            assert(schema.names.contains(schema.names[1]));
            assert(schema.names.contains(schema.names[2]));
        }
        if schema.names.len() > 3 {
            assert(schema.names.contains(schema.names[3]));
        }
        if schema.names.len() > 4 {
            assert(schema.names.contains(schema.names[4]));
        }
    }
    assert(schema.names.to_set() =~= fields);
}

/// A text takes at least as many bytes as it has characters.
proof fn lemma_bytes_are_not_fewer(value: Seq<char>)
    ensures
        value.len() <= text::byte_length(value),
    decreases value.len(),
{
    if value.len() > 0 {
        lemma_bytes_are_not_fewer(value.drop_first());
    }
}

/// Whether the Plugin takes the request to the database: every text has the
/// form that is asked for, and a name comes without white space around it.
pub open spec fn is_accepted(request: ToolRequest) -> bool {
    match request {
        ToolRequest::GetOrganization(request) => names::is_name(
            request.organization_id,
            names::NAME_LIMIT as int,
        ),
        ToolRequest::CreateOrganization(request) => {
            &&& provider::is_creation_request(request)
            &&& text::trimmed(request.name) == request.name
        },
        ToolRequest::AddMember(request) => provider::is_membership_request(
            request.idempotency_key,
            request.organization_id,
            request.subject,
        ),
        ToolRequest::RemoveMember(request) => provider::is_membership_request(
            request.idempotency_key,
            request.organization_id,
            request.subject,
        ),
        _ => false,
    }
}

/// No schema keeps a request away that the Plugin would accept.
pub proof fn law_accepted_requests_are_admitted(request: ToolRequest)
    requires
        is_accepted(request),
    ensures
        spelling::spells(
            request.tool().schema_text(),
            0,
            request.tool().object_schema().words(),
        ),
        request.tool().object_schema().admits(request.arguments()),
{
    law_schema_admits_what_decodes(request.tool(), request.arguments());
    if let ToolRequest::CreateOrganization(creation) = request {
        lemma_bytes_are_not_fewer(creation.name);
    }
    assert(request.is_bounded());
}

/// Whether the text begins with the word that the operation's name begins
/// with, written with a capital.
pub open spec fn begins_with_verb(text: Seq<char>, operation: Seq<char>, length: int) -> bool {
    &&& 0 < length < operation.len()
    &&& length < text.len()
    &&& operation[length] == '_'
    &&& text[length] == ' '
    &&& text[0] as int + 32 == operation[0] as int
    &&& forall|k: int| 1 <= k < length ==> #[trigger] text[k] == operation[k]
}

/// Whether the word stands somewhere in the text.
pub open spec fn mentions(text: Seq<char>, word: Seq<char>) -> bool {
    exists|at: int| spelling::is_at(text, at, word)
}

proof fn lemma_get_organization_is_described()
    ensures
        begins_with_verb(
            Tool::GetOrganization.purpose(),
            Tool::GetOrganization.called_operation(),
            3,
        ),
        !mentions(Tool::GetOrganization.purpose(), "idempotency_key"@),
{
    reveal_strlit("Get one Organization's authoritative name, slug, active state, and revision.");
    reveal_strlit("get_organization");
    reveal_strlit("idempotency_key");
    let text = Tool::GetOrganization.purpose();
    assert(forall|k: int| 0 <= k < text.len() ==> #[trigger] text[k] != '_');
    assert forall|at: int| !spelling::is_at(text, at, "idempotency_key"@) by {
        if spelling::is_at(text, at, "idempotency_key"@) {
            assert(text[at + 11] == "idempotency_key"@[11]);
        }
    }
}

proof fn lemma_list_organizations_is_described()
    ensures
        begins_with_verb(
            Tool::ListOrganizations.purpose(),
            Tool::ListOrganizations.called_operation(),
            4,
        ),
        !mentions(Tool::ListOrganizations.purpose(), "idempotency_key"@),
{
    reveal_strlit("List Organizations with bounded cursor pagination and optional exact slug and status filters.");
    reveal_strlit("list_organizations");
    reveal_strlit("idempotency_key");
    let text = Tool::ListOrganizations.purpose();
    assert(forall|k: int| 0 <= k < text.len() ==> #[trigger] text[k] != '_');
    assert forall|at: int| !spelling::is_at(text, at, "idempotency_key"@) by {
        if spelling::is_at(text, at, "idempotency_key"@) {
            assert(text[at + 11] == "idempotency_key"@[11]);
        }
    }
}

proof fn lemma_list_members_is_described()
    ensures
        begins_with_verb(
            Tool::ListMembers.purpose(),
            Tool::ListMembers.called_operation(),
            4,
        ),
        !mentions(Tool::ListMembers.purpose(), "idempotency_key"@),
{
    reveal_strlit("List memberships in one exact Organization with optional exact subject and status filters.");
    reveal_strlit("list_members");
    reveal_strlit("idempotency_key");
    let text = Tool::ListMembers.purpose();
    assert(forall|k: int| 0 <= k < text.len() ==> #[trigger] text[k] != '_');
    assert forall|at: int| !spelling::is_at(text, at, "idempotency_key"@) by {
        if spelling::is_at(text, at, "idempotency_key"@) {
            assert(text[at + 11] == "idempotency_key"@[11]);
        }
    }
}

proof fn lemma_create_organization_is_described()
    ensures
        begins_with_verb(
            Tool::CreateOrganization.purpose(),
            Tool::CreateOrganization.called_operation(),
            6,
        ),
        mentions(Tool::CreateOrganization.purpose(), "idempotency_key"@),
{
    reveal_strlit("Create one Organization and its protected owner membership. Reuse the same idempotency_key when retrying one intent.");
    reveal_strlit("create_organization");
    reveal_strlit("idempotency_key");
    assert(spelling::is_at(Tool::CreateOrganization.purpose(), 75, "idempotency_key"@));
}

proof fn lemma_add_member_is_described()
    ensures
        begins_with_verb(
            Tool::AddMember.purpose(),
            Tool::AddMember.called_operation(),
            3,
        ),
        mentions(Tool::AddMember.purpose(), "idempotency_key"@),
{
    reveal_strlit("Add one active non-owner membership. Reuse the same idempotency_key when retrying one intent.");
    reveal_strlit("add_member");
    reveal_strlit("idempotency_key");
    assert(spelling::is_at(Tool::AddMember.purpose(), 52, "idempotency_key"@));
}

proof fn lemma_remove_member_is_described()
    ensures
        begins_with_verb(
            Tool::RemoveMember.purpose(),
            Tool::RemoveMember.called_operation(),
            6,
        ),
        mentions(Tool::RemoveMember.purpose(), "idempotency_key"@),
{
    reveal_strlit("Remove one non-owner membership. Owners remain protected; reuse the same idempotency_key when retrying one intent.");
    reveal_strlit("remove_member");
    reveal_strlit("idempotency_key");
    assert(spelling::is_at(Tool::RemoveMember.purpose(), 73, "idempotency_key"@));
}

/// What a Tool's description says: it begins with what the called operation
/// does, and it speaks of the idempotency key exactly if the schema requires
/// one. The Tools without a key are those that only read.
pub proof fn law_descriptions_tell_of_keys(tool: Tool)
    ensures
        exists|length: int| begins_with_verb(tool.purpose(), tool.called_operation(), length),
        mentions(tool.purpose(), "idempotency_key"@) <==> tool.object_schema().required.contains(
            "idempotency_key"@,
        ),
        tool.reads() <==> !tool.object_schema().required.contains("idempotency_key"@),
{
    lemma_names_differ();
    let required = tool.object_schema().required;
    match tool {
        Tool::GetOrganization => lemma_get_organization_is_described(),
        Tool::ListOrganizations => lemma_list_organizations_is_described(),
        Tool::ListMembers => lemma_list_members_is_described(),
        Tool::CreateOrganization => lemma_create_organization_is_described(),
        Tool::AddMember => lemma_add_member_is_described(),
        Tool::RemoveMember => lemma_remove_member_is_described(),
    }
    if !tool.reads() {
        assert(required[0] == "idempotency_key"@);
        assert(required.contains(required[0]));
    }
}

} // verus!
