//! The transactions that add and remove members.

use vstd::prelude::*;

use crate::contracts;
use crate::contracts::{
    AddMemberError, AddMemberRequest, AddMemberResponse, Outcome, RemoveMemberError,
    RemoveMemberRequest, RemoveMemberResponse,
};
use crate::failure::{OrganizationError, RuntimeFailure};
use crate::ids;
use crate::notation;
use crate::postgres_plugin;
use crate::postgres_plugin::statements::{Action, CommandRow, Reply, Statement};
use crate::postgres_plugin::{database_runtime, runtime};
use crate::text;
use crate::transaction::Progress;

verus! {

/// The operation that an addition stores in its receipt.
pub const ADD_MEMBER: &'static str = "add_member";

/// The operation that a removal stores in its receipt.
pub const REMOVE_MEMBER: &'static str = "remove_member";

/// What the stored receipt says about a command with its idempotency key.
#[derive(Clone, Debug, PartialEq, Eq)]
pub enum MembershipCommandReplay<S = String> {
    /// The same command, with the result it had.
    Exact { membership_id: S, revision: i64 },
    /// Another command.
    Conflict,
}

impl View for MembershipCommandReplay {
    type V = MembershipCommandReplay<Seq<char>>;

    open spec fn view(&self) -> MembershipCommandReplay<Seq<char>> {
        match *self {
            MembershipCommandReplay::Exact { membership_id, revision } =>
                MembershipCommandReplay::Exact { membership_id: membership_id@, revision },
            MembershipCommandReplay::Conflict => MembershipCommandReplay::Conflict,
        }
    }
}

/// What the stored receipt says about a command: a conflict if the two
/// commands differ, and otherwise the result, which a receipt must have.
pub open spec fn command_replay(
    row: CommandRow<Seq<char>>,
    operation: Seq<char>,
    organization_id: Seq<char>,
    subject: Seq<char>,
) -> Result<MembershipCommandReplay<Seq<char>>, RuntimeFailure<Seq<char>>> {
    if row.operation != operation || row.organization_id != organization_id || row.subject
        != subject {
        Ok(MembershipCommandReplay::Conflict)
    } else {
        match (row.membership_id, row.result_revision, row.changed) {
            (Some(membership_id), Some(revision), Some(_)) => Ok(
                MembershipCommandReplay::Exact { membership_id, revision },
            ),
            _ => Err(
                postgres_plugin::invariant_failure("committed membership command has no result"@),
            ),
        }
    }
}

/// Reads what the stored receipt says about a command.
pub fn read_membership_command_replay(
    row: CommandRow,
    operation: &str,
    organization_id: &str,
    subject: &str,
) -> (result: Result<MembershipCommandReplay, RuntimeFailure>)
    ensures
        (match result {
            Ok(replay) => Ok(replay@),
            Err(failure) => Err(failure@),
        }) == command_replay(row@, operation@, organization_id@, subject@),
{
    if !text::same(row.operation.as_str(), operation) || !text::same(
        row.organization_id.as_str(),
        organization_id,
    ) || !text::same(row.subject.as_str(), subject) {
        return Ok(MembershipCommandReplay::Conflict);
    }
    match (row.membership_id, row.result_revision, row.changed) {
        (Some(membership_id), Some(revision), Some(_)) => Ok(
            MembershipCommandReplay::Exact { membership_id, revision },
        ),
        _ => Err(
            runtime(
                OrganizationError::Invariant {
                    detail: "committed membership command has no result",
                },
            ),
        ),
    }
}

/// The revision after `revision`, as long as there is one.
pub fn next_membership_revision(revision: i64) -> (result: Result<i64, RuntimeFailure>)
    ensures
        match result {
            Ok(next) => next == revision + 1,
            Err(failure) => revision == i64::MAX && failure@ == postgres_plugin::invariant_failure(
                "membership revision overflow"@,
            ),
        },
{
    match revision.checked_add(1) {
        Some(next) => Ok(next),
        None => Err(
            runtime(OrganizationError::Invariant { detail: "membership revision overflow" }),
        ),
    }
}

/// How far an addition has come.
#[derive(Clone, Debug, PartialEq, Eq)]
pub enum AdditionStage<S = String> {
    Begin,
    Reserve,
    ReadReplay,
    CommitReplay { membership_id: S, revision: i64 },
    LockOrganization,
    ReadMember,
    InsertMember,
    Complete { membership_id: S, revision: i64, created: bool },
    Commit { membership_id: S, revision: i64, created: bool },
}

impl View for AdditionStage {
    type V = AdditionStage<Seq<char>>;

    open spec fn view(&self) -> AdditionStage<Seq<char>> {
        match *self {
            AdditionStage::Begin => AdditionStage::Begin,
            AdditionStage::Reserve => AdditionStage::Reserve,
            AdditionStage::ReadReplay => AdditionStage::ReadReplay,
            AdditionStage::CommitReplay { membership_id, revision } => AdditionStage::CommitReplay {
                membership_id: membership_id@,
                revision,
            },
            AdditionStage::LockOrganization => AdditionStage::LockOrganization,
            AdditionStage::ReadMember => AdditionStage::ReadMember,
            AdditionStage::InsertMember => AdditionStage::InsertMember,
            AdditionStage::Complete { membership_id, revision, created } => AdditionStage::Complete {
                membership_id: membership_id@,
                revision,
                created,
            },
            AdditionStage::Commit { membership_id, revision, created } => AdditionStage::Commit {
                membership_id: membership_id@,
                revision,
                created,
            },
        }
    }
}

/// An admitted addition, the identifier it would use, and how far it has come.
#[derive(Clone, Debug, PartialEq, Eq)]
pub struct Addition<S = String> {
    pub caller_instance: S,
    pub idempotency_key: S,
    pub organization_id: S,
    pub subject: S,
    pub generated_membership_id: S,
    pub stage: AdditionStage<S>,
}

impl View for Addition {
    type V = Addition<Seq<char>>;

    open spec fn view(&self) -> Addition<Seq<char>> {
        Addition {
            caller_instance: self.caller_instance@,
            idempotency_key: self.idempotency_key@,
            organization_id: self.organization_id@,
            subject: self.subject@,
            generated_membership_id: self.generated_membership_id@,
            stage: self.stage@,
        }
    }
}

/// How an addition ends.
pub type AdditionOutcome = Outcome<AddMemberResponse, AddMemberError>;

/// What the end of an addition says.
pub type AdditionOutcomeView = Result<
    Result<AddMemberResponse<Seq<char>>, AddMemberError>,
    RuntimeFailure<Seq<char>>,
>;

/// What the progress of an addition says.
pub open spec fn addition_progress_view(progress: Progress<Addition, AdditionOutcome>) -> Progress<
    Addition<Seq<char>>,
    AdditionOutcomeView,
> {
    match progress {
        Progress::Continue(addition) => Progress::Continue(addition@),
        Progress::Finish(outcome) => Progress::Finish(contracts::outcome_view(outcome)),
    }
}

impl<S> Addition<S> {
    /// What the current request to the database is called in a failure.
    pub open spec fn operation(self) -> Seq<char> {
        match self.stage {
            AdditionStage::Begin => "begin member addition"@,
            AdditionStage::Reserve => "reserve membership command"@,
            AdditionStage::ReadReplay => "read membership command replay"@,
            AdditionStage::CommitReplay { .. } => "commit member addition replay"@,
            AdditionStage::LockOrganization => "lock organization for membership command"@,
            AdditionStage::ReadMember => "read active member for addition"@,
            AdditionStage::InsertMember => "insert organization member"@,
            AdditionStage::Complete { .. } => "complete membership command"@,
            AdditionStage::Commit { .. } => "commit member addition"@,
        }
    }

    /// The same addition at another stage.
    pub open spec fn at(self, stage: AdditionStage<S>) -> Self {
        Addition { stage, ..self }
    }
}

impl Addition<Seq<char>> {
    /// What the current stage asks the database for.
    pub open spec fn requested(self) -> Action<Seq<char>> {
        match self.stage {
            AdditionStage::Begin => Action::Begin,
            AdditionStage::Reserve => Action::Execute(
                Statement::ReserveCommand {
                    caller_instance: self.caller_instance,
                    idempotency_key: self.idempotency_key,
                    operation: ADD_MEMBER@,
                    organization_id: self.organization_id,
                    subject: self.subject,
                },
            ),
            AdditionStage::ReadReplay => Action::Execute(
                Statement::ReadCommand {
                    caller_instance: self.caller_instance,
                    idempotency_key: self.idempotency_key,
                },
            ),
            AdditionStage::CommitReplay { .. } => Action::Commit,
            AdditionStage::LockOrganization => Action::Execute(
                Statement::LockOrganization { organization_id: self.organization_id },
            ),
            AdditionStage::ReadMember => Action::Execute(
                Statement::ReadMemberForAddition {
                    organization_id: self.organization_id,
                    subject: self.subject,
                },
            ),
            AdditionStage::InsertMember => Action::Execute(
                Statement::InsertMember {
                    membership_id: self.generated_membership_id,
                    organization_id: self.organization_id,
                    subject: self.subject,
                },
            ),
            AdditionStage::Complete { membership_id, revision, created } => Action::Execute(
                Statement::CompleteCommand {
                    caller_instance: self.caller_instance,
                    idempotency_key: self.idempotency_key,
                    membership_id,
                    revision,
                    changed: created,
                },
            ),
            AdditionStage::Commit { .. } => Action::Commit,
        }
    }

    /// Where a reply takes the addition. Any reply that the stage has no use for
    /// counts as a failure of its request.
    pub open spec fn advanced(self, reply: Reply<Seq<char>>) -> Progress<Self, AdditionOutcomeView> {
        match (self.stage, reply) {
            (AdditionStage::Begin, Reply::Done) => Progress::Continue(
                self.at(AdditionStage::Reserve),
            ),
            (AdditionStage::Reserve, Reply::RowsAffected(count)) => Progress::Continue(
                self.at(
                    if count == 1 {
                        AdditionStage::LockOrganization
                    } else {
                        AdditionStage::ReadReplay
                    },
                ),
            ),
            (AdditionStage::ReadReplay, Reply::Command(row)) => match command_replay(
                row,
                ADD_MEMBER@,
                self.organization_id,
                self.subject,
            ) {
                Ok(MembershipCommandReplay::Exact { membership_id, revision }) =>
                    Progress::Continue(
                        self.at(AdditionStage::CommitReplay { membership_id, revision }),
                    ),
                Ok(MembershipCommandReplay::Conflict) => Progress::Finish(
                    Ok(Err(AddMemberError::IdempotencyConflict)),
                ),
                Err(failure) => Progress::Finish(Err(failure)),
            },
            (AdditionStage::CommitReplay { membership_id, revision }, Reply::Done) =>
                Progress::Finish(
                    Ok(
                        Ok(
                            AddMemberResponse {
                                created: false,
                                membership_id,
                                revision: notation::decimal(revision as int),
                            },
                        ),
                    ),
                ),
            (AdditionStage::LockOrganization, Reply::Organization(active)) => if active == Some(true) {
                Progress::Continue(self.at(AdditionStage::ReadMember))
            } else {
                Progress::Finish(Ok(Err(AddMemberError::OrganizationNotFound)))
            },
            (AdditionStage::ReadMember, Reply::Member(None)) => Progress::Continue(
                self.at(AdditionStage::InsertMember),
            ),
            (AdditionStage::ReadMember, Reply::Member(Some(member))) => Progress::Continue(
                self.at(
                    AdditionStage::Complete {
                        membership_id: member.membership_id,
                        revision: member.revision,
                        created: false,
                    },
                ),
            ),
            (AdditionStage::InsertMember, Reply::RowsAffected(_)) => Progress::Continue(
                self.at(
                    AdditionStage::Complete {
                        membership_id: self.generated_membership_id,
                        revision: 1,
                        created: true,
                    },
                ),
            ),
            (
                AdditionStage::Complete { membership_id, revision, created },
                Reply::RowsAffected(1),
            ) => Progress::Continue(
                self.at(AdditionStage::Commit { membership_id, revision, created }),
            ),
            (AdditionStage::Commit { membership_id, revision, created }, Reply::Done) =>
                Progress::Finish(
                    Ok(
                        Ok(
                            AddMemberResponse {
                                created,
                                membership_id,
                                revision: notation::decimal(revision as int),
                            },
                        ),
                    ),
                ),
            _ => Progress::Finish(Err(postgres_plugin::database_failure(self.operation()))),
        }
    }
}

/// An addition that is about to begin, with the given identifier.
pub fn addition_with_id(
    caller_instance: String,
    request: AddMemberRequest,
    generated_membership_id: String,
) -> (result: Addition)
    ensures
        result@ == (Addition {
            caller_instance: caller_instance@,
            idempotency_key: request.idempotency_key@,
            organization_id: request.organization_id@,
            subject: request.subject@,
            generated_membership_id: generated_membership_id@,
            stage: AdditionStage::Begin,
        }),
{
    Addition {
        caller_instance,
        idempotency_key: request.idempotency_key,
        organization_id: request.organization_id,
        subject: request.subject,
        generated_membership_id,
        stage: AdditionStage::Begin,
    }
}

/// What comes of the draw for an addition: the addition with the identifier
/// that was drawn, or the failure of the draw.
pub fn addition_from(
    caller_instance: String,
    request: AddMemberRequest,
    generated_membership_id: Result<String, OrganizationError>,
) -> (result: Result<Addition, RuntimeFailure>)
    ensures
        match generated_membership_id {
            Ok(generated_membership_id) => result matches Ok(addition) && addition@ == (Addition {
                caller_instance: caller_instance@,
                idempotency_key: request.idempotency_key@,
                organization_id: request.organization_id@,
                subject: request.subject@,
                generated_membership_id: generated_membership_id@,
                stage: AdditionStage::Begin,
            }),
            Err(error) => result matches Err(failure) && failure@
                == (RuntimeFailure::PluginFailure { detail: error.text() }),
        },
{
    match generated_membership_id {
        Ok(id) => Ok(addition_with_id(caller_instance, request, id)),
        Err(error) => Err(runtime(error)),
    }
}

/// An addition that is about to begin, with a new identifier. It fails only
/// where the random source does.
pub fn add_member_in_postgres(
    caller_instance: String,
    request: AddMemberRequest,
) -> (result: Result<Addition, RuntimeFailure>)
    ensures
        match result {
            Ok(addition) => {
                &&& ids::is_generated(addition.generated_membership_id@, "member_"@)
                &&& addition@ == (Addition {
                    caller_instance: caller_instance@,
                    idempotency_key: request.idempotency_key@,
                    organization_id: request.organization_id@,
                    subject: request.subject@,
                    generated_membership_id: addition.generated_membership_id@,
                    stage: AdditionStage::Begin,
                })
            },
            Err(failure) => failure@ == (RuntimeFailure::PluginFailure {
                detail: OrganizationError::Random.text(),
            }),
        },
{
    addition_from(caller_instance, request, ids::random_id("member_"))
}

impl Addition {
    /// What the current stage asks the database for.
    pub fn action(&self) -> (result: Action)
        ensures
            result@ == self@.requested(),
    {
        match &self.stage {
            AdditionStage::Begin => Action::Begin,
            AdditionStage::Reserve => Action::Execute(
                Statement::ReserveCommand {
                    caller_instance: self.caller_instance.clone(),
                    idempotency_key: self.idempotency_key.clone(),
                    operation: ADD_MEMBER.to_owned(),
                    organization_id: self.organization_id.clone(),
                    subject: self.subject.clone(),
                },
            ),
            AdditionStage::ReadReplay => Action::Execute(
                Statement::ReadCommand {
                    caller_instance: self.caller_instance.clone(),
                    idempotency_key: self.idempotency_key.clone(),
                },
            ),
            AdditionStage::CommitReplay { .. } => Action::Commit,
            AdditionStage::LockOrganization => Action::Execute(
                Statement::LockOrganization { organization_id: self.organization_id.clone() },
            ),
            AdditionStage::ReadMember => Action::Execute(
                Statement::ReadMemberForAddition {
                    organization_id: self.organization_id.clone(),
                    subject: self.subject.clone(),
                },
            ),
            AdditionStage::InsertMember => Action::Execute(
                Statement::InsertMember {
                    membership_id: self.generated_membership_id.clone(),
                    organization_id: self.organization_id.clone(),
                    subject: self.subject.clone(),
                },
            ),
            AdditionStage::Complete { membership_id, revision, created } => Action::Execute(
                Statement::CompleteCommand {
                    caller_instance: self.caller_instance.clone(),
                    idempotency_key: self.idempotency_key.clone(),
                    membership_id: membership_id.clone(),
                    revision: *revision,
                    changed: *created,
                },
            ),
            AdditionStage::Commit { .. } => Action::Commit,
        }
    }

    fn failed_operation(&self) -> (result: &'static str)
        ensures
            result@ == self@.operation(),
    {
        match &self.stage {
            AdditionStage::Begin => "begin member addition",
            AdditionStage::Reserve => "reserve membership command",
            AdditionStage::ReadReplay => "read membership command replay",
            AdditionStage::CommitReplay { .. } => "commit member addition replay",
            AdditionStage::LockOrganization => "lock organization for membership command",
            AdditionStage::ReadMember => "read active member for addition",
            AdditionStage::InsertMember => "insert organization member",
            AdditionStage::Complete { .. } => "complete membership command",
            AdditionStage::Commit { .. } => "commit member addition",
        }
    }

    fn move_to(self, stage: AdditionStage) -> (result: Progress<Addition, AdditionOutcome>)
        ensures
            addition_progress_view(result) == Progress::<
                Addition<Seq<char>>,
                AdditionOutcomeView,
            >::Continue(self@.at(stage@)),
    {
        Progress::Continue(Addition { stage, ..self })
    }

    /// Where a reply takes the addition.
    pub fn advance(self, reply: Reply) -> (result: Progress<Addition, AdditionOutcome>)
        ensures
            addition_progress_view(result) == self@.advanced(reply@),
    {
        let operation = self.failed_operation();
        match reply {
            Reply::Done => match self.stage {
                AdditionStage::Begin => self.move_to(AdditionStage::Reserve),
                AdditionStage::CommitReplay { membership_id, revision } => Progress::Finish(
                    Ok(
                        Ok(
                            AddMemberResponse {
                                created: false,
                                membership_id,
                                revision: notation::decimal_text(revision),
                            },
                        ),
                    ),
                ),
                AdditionStage::Commit { membership_id, revision, created } => Progress::Finish(
                    Ok(
                        Ok(
                            AddMemberResponse {
                                created,
                                membership_id,
                                revision: notation::decimal_text(revision),
                            },
                        ),
                    ),
                ),
                _ => Progress::Finish(Err(database_runtime(operation))),
            },
            Reply::RowsAffected(count) => match &self.stage {
                AdditionStage::Reserve => if count == 1 {
                    self.move_to(AdditionStage::LockOrganization)
                } else {
                    self.move_to(AdditionStage::ReadReplay)
                },
                AdditionStage::InsertMember => {
                    let stage = AdditionStage::Complete {
                        membership_id: self.generated_membership_id.clone(),
                        revision: 1,
                        created: true,
                    };
                    self.move_to(stage)
                },
                AdditionStage::Complete { membership_id, revision, created } => if count == 1 {
                    let stage = AdditionStage::Commit {
                        membership_id: membership_id.clone(),
                        revision: *revision,
                        created: *created,
                    };
                    self.move_to(stage)
                } else {
                    Progress::Finish(Err(database_runtime(operation)))
                },
                _ => Progress::Finish(Err(database_runtime(operation))),
            },
            Reply::Command(row) => match self.stage {
                AdditionStage::ReadReplay => match read_membership_command_replay(
                    row,
                    ADD_MEMBER,
                    self.organization_id.as_str(),
                    self.subject.as_str(),
                ) {
                    Ok(MembershipCommandReplay::Exact { membership_id, revision }) => self.move_to(
                        AdditionStage::CommitReplay { membership_id, revision },
                    ),
                    Ok(MembershipCommandReplay::Conflict) => Progress::Finish(
                        Ok(Err(AddMemberError::IdempotencyConflict)),
                    ),
                    Err(failure) => Progress::Finish(Err(failure)),
                },
                _ => Progress::Finish(Err(database_runtime(operation))),
            },
            Reply::Organization(active) => match self.stage {
                AdditionStage::LockOrganization => match active {
                    Some(true) => self.move_to(AdditionStage::ReadMember),
                    _ => Progress::Finish(Ok(Err(AddMemberError::OrganizationNotFound))),
                },
                _ => Progress::Finish(Err(database_runtime(operation))),
            },
            Reply::Member(member) => match self.stage {
                AdditionStage::ReadMember => match member {
                    Some(member) => self.move_to(
                        AdditionStage::Complete {
                            membership_id: member.membership_id,
                            revision: member.revision,
                            created: false,
                        },
                    ),
                    None => self.move_to(AdditionStage::InsertMember),
                },
                _ => Progress::Finish(Err(database_runtime(operation))),
            },
            _ => Progress::Finish(Err(database_runtime(operation))),
        }
    }
}

/// How far a removal has come.
#[derive(Clone, Debug, PartialEq, Eq)]
pub enum RemovalStage<S = String> {
    Begin,
    Reserve,
    ReadReplay,
    CommitReplay { membership_id: S, revision: i64 },
    LockOrganization,
    ReadMember,
    /// Tombstones the membership at `revision`.
    RemoveMember { membership_id: S, revision: i64 },
    Complete { membership_id: S, revision: i64 },
    Commit { membership_id: S, revision: i64 },
}

impl View for RemovalStage {
    type V = RemovalStage<Seq<char>>;

    open spec fn view(&self) -> RemovalStage<Seq<char>> {
        match *self {
            RemovalStage::Begin => RemovalStage::Begin,
            RemovalStage::Reserve => RemovalStage::Reserve,
            RemovalStage::ReadReplay => RemovalStage::ReadReplay,
            RemovalStage::CommitReplay { membership_id, revision } => RemovalStage::CommitReplay {
                membership_id: membership_id@,
                revision,
            },
            RemovalStage::LockOrganization => RemovalStage::LockOrganization,
            RemovalStage::ReadMember => RemovalStage::ReadMember,
            RemovalStage::RemoveMember { membership_id, revision } => RemovalStage::RemoveMember {
                membership_id: membership_id@,
                revision,
            },
            RemovalStage::Complete { membership_id, revision } => RemovalStage::Complete {
                membership_id: membership_id@,
                revision,
            },
            RemovalStage::Commit { membership_id, revision } => RemovalStage::Commit {
                membership_id: membership_id@,
                revision,
            },
        }
    }
}

/// An admitted removal and how far it has come.
#[derive(Clone, Debug, PartialEq, Eq)]
pub struct Removal<S = String> {
    pub caller_instance: S,
    pub idempotency_key: S,
    pub organization_id: S,
    pub subject: S,
    pub stage: RemovalStage<S>,
}

impl View for Removal {
    type V = Removal<Seq<char>>;

    open spec fn view(&self) -> Removal<Seq<char>> {
        Removal {
            caller_instance: self.caller_instance@,
            idempotency_key: self.idempotency_key@,
            organization_id: self.organization_id@,
            subject: self.subject@,
            stage: self.stage@,
        }
    }
}

/// How a removal ends.
pub type RemovalOutcome = Outcome<RemoveMemberResponse, RemoveMemberError>;

/// What the end of a removal says.
pub type RemovalOutcomeView = Result<
    Result<RemoveMemberResponse<Seq<char>>, RemoveMemberError>,
    RuntimeFailure<Seq<char>>,
>;

/// What the progress of a removal says.
pub open spec fn removal_progress_view(progress: Progress<Removal, RemovalOutcome>) -> Progress<
    Removal<Seq<char>>,
    RemovalOutcomeView,
> {
    match progress {
        Progress::Continue(removal) => Progress::Continue(removal@),
        Progress::Finish(outcome) => Progress::Finish(contracts::outcome_view(outcome)),
    }
}

impl<S> Removal<S> {
    /// What the current request to the database is called in a failure.
    pub open spec fn operation(self) -> Seq<char> {
        match self.stage {
            RemovalStage::Begin => "begin member removal"@,
            RemovalStage::Reserve => "reserve membership command"@,
            RemovalStage::ReadReplay => "read membership command replay"@,
            RemovalStage::CommitReplay { .. } => "commit member removal replay"@,
            RemovalStage::LockOrganization => "lock organization for membership command"@,
            RemovalStage::ReadMember => "read active member for removal"@,
            RemovalStage::RemoveMember { .. } => "remove organization member"@,
            RemovalStage::Complete { .. } => "complete membership command"@,
            RemovalStage::Commit { .. } => "commit member removal"@,
        }
    }

    /// The same removal at another stage.
    pub open spec fn at(self, stage: RemovalStage<S>) -> Self {
        Removal { stage, ..self }
    }
}

impl Removal<Seq<char>> {
    /// What the current stage asks the database for.
    pub open spec fn requested(self) -> Action<Seq<char>> {
        match self.stage {
            RemovalStage::Begin => Action::Begin,
            RemovalStage::Reserve => Action::Execute(
                Statement::ReserveCommand {
                    caller_instance: self.caller_instance,
                    idempotency_key: self.idempotency_key,
                    operation: REMOVE_MEMBER@,
                    organization_id: self.organization_id,
                    subject: self.subject,
                },
            ),
            RemovalStage::ReadReplay => Action::Execute(
                Statement::ReadCommand {
                    caller_instance: self.caller_instance,
                    idempotency_key: self.idempotency_key,
                },
            ),
            RemovalStage::CommitReplay { .. } => Action::Commit,
            RemovalStage::LockOrganization => Action::Execute(
                Statement::LockOrganization { organization_id: self.organization_id },
            ),
            RemovalStage::ReadMember => Action::Execute(
                Statement::ReadMemberForRemoval {
                    organization_id: self.organization_id,
                    subject: self.subject,
                },
            ),
            RemovalStage::RemoveMember { membership_id, revision } => Action::Execute(
                Statement::RemoveMember {
                    organization_id: self.organization_id,
                    membership_id,
                    revision,
                },
            ),
            RemovalStage::Complete { membership_id, revision } => Action::Execute(
                Statement::CompleteCommand {
                    caller_instance: self.caller_instance,
                    idempotency_key: self.idempotency_key,
                    membership_id,
                    revision,
                    changed: true,
                },
            ),
            RemovalStage::Commit { .. } => Action::Commit,
        }
    }

    /// Where a reply takes the removal. Any reply that the stage has no use for
    /// counts as a failure of its request.
    pub open spec fn advanced(self, reply: Reply<Seq<char>>) -> Progress<Self, RemovalOutcomeView> {
        match (self.stage, reply) {
            (RemovalStage::Begin, Reply::Done) => Progress::Continue(
                self.at(RemovalStage::Reserve),
            ),
            (RemovalStage::Reserve, Reply::RowsAffected(count)) => Progress::Continue(
                self.at(
                    if count == 1 {
                        RemovalStage::LockOrganization
                    } else {
                        RemovalStage::ReadReplay
                    },
                ),
            ),
            (RemovalStage::ReadReplay, Reply::Command(row)) => match command_replay(
                row,
                REMOVE_MEMBER@,
                self.organization_id,
                self.subject,
            ) {
                Ok(MembershipCommandReplay::Exact { membership_id, revision }) =>
                    Progress::Continue(
                        self.at(RemovalStage::CommitReplay { membership_id, revision }),
                    ),
                Ok(MembershipCommandReplay::Conflict) => Progress::Finish(
                    Ok(Err(RemoveMemberError::IdempotencyConflict)),
                ),
                Err(failure) => Progress::Finish(Err(failure)),
            },
            (RemovalStage::CommitReplay { membership_id, revision }, Reply::Done) =>
                Progress::Finish(
                    Ok(
                        Ok(
                            RemoveMemberResponse {
                                removed: false,
                                membership_id,
                                revision: notation::decimal(revision as int),
                            },
                        ),
                    ),
                ),
            (RemovalStage::LockOrganization, Reply::Organization(active)) => if active == Some(true) {
                Progress::Continue(self.at(RemovalStage::ReadMember))
            } else {
                Progress::Finish(Ok(Err(RemoveMemberError::OrganizationNotFound)))
            },
            (RemovalStage::ReadMember, Reply::OwnedMember(None)) => Progress::Finish(
                Ok(Err(RemoveMemberError::MembershipNotFound)),
            ),
            (RemovalStage::ReadMember, Reply::OwnedMember(Some(member))) => if member.is_owner {
                Progress::Finish(Ok(Err(RemoveMemberError::OwnerProtected)))
            } else if member.revision == i64::MAX {
                Progress::Finish(
                    Err(postgres_plugin::invariant_failure("membership revision overflow"@)),
                )
            } else {
                Progress::Continue(
                    self.at(
                        RemovalStage::RemoveMember {
                            membership_id: member.membership_id,
                            revision: (member.revision + 1) as i64,
                        },
                    ),
                )
            },
            (RemovalStage::RemoveMember { membership_id, revision }, Reply::RowsAffected(_)) =>
                Progress::Continue(self.at(RemovalStage::Complete { membership_id, revision })),
            (
                RemovalStage::Complete { membership_id, revision },
                Reply::RowsAffected(1),
            ) => Progress::Continue(
                self.at(RemovalStage::Commit { membership_id, revision }),
            ),
            (RemovalStage::Commit { membership_id, revision }, Reply::Done) =>
                Progress::Finish(
                    Ok(
                        Ok(
                            RemoveMemberResponse {
                                removed: true,
                                membership_id,
                                revision: notation::decimal(revision as int),
                            },
                        ),
                    ),
                ),
            _ => Progress::Finish(Err(postgres_plugin::database_failure(self.operation()))),
        }
    }
}

/// A removal that is about to begin.
pub fn remove_member_in_postgres(
    caller_instance: String,
    request: RemoveMemberRequest,
) -> (result: Removal)
    ensures
        result@ == (Removal {
            caller_instance: caller_instance@,
            idempotency_key: request.idempotency_key@,
            organization_id: request.organization_id@,
            subject: request.subject@,
            stage: RemovalStage::Begin,
        }),
{
    Removal {
        caller_instance,
        idempotency_key: request.idempotency_key,
        organization_id: request.organization_id,
        subject: request.subject,
        stage: RemovalStage::Begin,
    }
}

impl Removal {
    /// What the current stage asks the database for.
    pub fn action(&self) -> (result: Action)
        ensures
            result@ == self@.requested(),
    {
        match &self.stage {
            RemovalStage::Begin => Action::Begin,
            RemovalStage::Reserve => Action::Execute(
                Statement::ReserveCommand {
                    caller_instance: self.caller_instance.clone(),
                    idempotency_key: self.idempotency_key.clone(),
                    operation: REMOVE_MEMBER.to_owned(),
                    organization_id: self.organization_id.clone(),
                    subject: self.subject.clone(),
                },
            ),
            RemovalStage::ReadReplay => Action::Execute(
                Statement::ReadCommand {
                    caller_instance: self.caller_instance.clone(),
                    idempotency_key: self.idempotency_key.clone(),
                },
            ),
            RemovalStage::CommitReplay { .. } => Action::Commit,
            RemovalStage::LockOrganization => Action::Execute(
                Statement::LockOrganization { organization_id: self.organization_id.clone() },
            ),
            RemovalStage::ReadMember => Action::Execute(
                Statement::ReadMemberForRemoval {
                    organization_id: self.organization_id.clone(),
                    subject: self.subject.clone(),
                },
            ),
            RemovalStage::RemoveMember { membership_id, revision } => Action::Execute(
                Statement::RemoveMember {
                    organization_id: self.organization_id.clone(),
                    membership_id: membership_id.clone(),
                    revision: *revision,
                },
            ),
            RemovalStage::Complete { membership_id, revision } => Action::Execute(
                Statement::CompleteCommand {
                    caller_instance: self.caller_instance.clone(),
                    idempotency_key: self.idempotency_key.clone(),
                    membership_id: membership_id.clone(),
                    revision: *revision,
                    changed: true,
                },
            ),
            RemovalStage::Commit { .. } => Action::Commit,
        }
    }

    fn failed_operation(&self) -> (result: &'static str)
        ensures
            result@ == self@.operation(),
    {
        match &self.stage {
            RemovalStage::Begin => "begin member removal",
            RemovalStage::Reserve => "reserve membership command",
            RemovalStage::ReadReplay => "read membership command replay",
            RemovalStage::CommitReplay { .. } => "commit member removal replay",
            RemovalStage::LockOrganization => "lock organization for membership command",
            RemovalStage::ReadMember => "read active member for removal",
            RemovalStage::RemoveMember { .. } => "remove organization member",
            RemovalStage::Complete { .. } => "complete membership command",
            RemovalStage::Commit { .. } => "commit member removal",
        }
    }

    fn move_to(self, stage: RemovalStage) -> (result: Progress<Removal, RemovalOutcome>)
        ensures
            removal_progress_view(result) == Progress::<
                Removal<Seq<char>>,
                RemovalOutcomeView,
            >::Continue(self@.at(stage@)),
    {
        Progress::Continue(Removal { stage, ..self })
    }

    /// Where a reply takes the removal.
    pub fn advance(self, reply: Reply) -> (result: Progress<Removal, RemovalOutcome>)
        ensures
            removal_progress_view(result) == self@.advanced(reply@),
    {
        let operation = self.failed_operation();
        match reply {
            Reply::Done => match self.stage {
                RemovalStage::Begin => self.move_to(RemovalStage::Reserve),
                RemovalStage::CommitReplay { membership_id, revision } => Progress::Finish(
                    Ok(
                        Ok(
                            RemoveMemberResponse {
                                removed: false,
                                membership_id,
                                revision: notation::decimal_text(revision),
                            },
                        ),
                    ),
                ),
                RemovalStage::Commit { membership_id, revision } => Progress::Finish(
                    Ok(
                        Ok(
                            RemoveMemberResponse {
                                removed: true,
                                membership_id,
                                revision: notation::decimal_text(revision),
                            },
                        ),
                    ),
                ),
                _ => Progress::Finish(Err(database_runtime(operation))),
            },
            Reply::RowsAffected(count) => match &self.stage {
                RemovalStage::Reserve => if count == 1 {
                    self.move_to(RemovalStage::LockOrganization)
                } else {
                    self.move_to(RemovalStage::ReadReplay)
                },
                RemovalStage::RemoveMember { membership_id, revision } => {
                    let stage = RemovalStage::Complete {
                        membership_id: membership_id.clone(),
                        revision: *revision,
                    };
                    self.move_to(stage)
                },
                RemovalStage::Complete { membership_id, revision } => if count == 1 {
                    let stage = RemovalStage::Commit {
                        membership_id: membership_id.clone(),
                        revision: *revision,
                    };
                    self.move_to(stage)
                } else {
                    Progress::Finish(Err(database_runtime(operation)))
                },
                _ => Progress::Finish(Err(database_runtime(operation))),
            },
            Reply::Command(row) => match self.stage {
                RemovalStage::ReadReplay => match read_membership_command_replay(
                    row,
                    REMOVE_MEMBER,
                    self.organization_id.as_str(),
                    self.subject.as_str(),
                ) {
                    Ok(MembershipCommandReplay::Exact { membership_id, revision }) => self.move_to(
                        RemovalStage::CommitReplay { membership_id, revision },
                    ),
                    Ok(MembershipCommandReplay::Conflict) => Progress::Finish(
                        Ok(Err(RemoveMemberError::IdempotencyConflict)),
                    ),
                    Err(failure) => Progress::Finish(Err(failure)),
                },
                _ => Progress::Finish(Err(database_runtime(operation))),
            },
            Reply::Organization(active) => match self.stage {
                RemovalStage::LockOrganization => match active {
                    Some(true) => self.move_to(RemovalStage::ReadMember),
                    _ => Progress::Finish(Ok(Err(RemoveMemberError::OrganizationNotFound))),
                },
                _ => Progress::Finish(Err(database_runtime(operation))),
            },
            Reply::OwnedMember(member) => match self.stage {
                RemovalStage::ReadMember => match member {
                    Some(member) => {
                        if member.is_owner {
                            return Progress::Finish(Ok(Err(RemoveMemberError::OwnerProtected)));
                        }
                        match next_membership_revision(member.revision) {
                            Ok(revision) => self.move_to(
                                RemovalStage::RemoveMember {
                                    membership_id: member.membership_id,
                                    revision,
                                },
                            ),
                            Err(failure) => Progress::Finish(Err(failure)),
                        }
                    },
                    None => Progress::Finish(Ok(Err(RemoveMemberError::MembershipNotFound))),
                },
                _ => Progress::Finish(Err(database_runtime(operation))),
            },
            _ => Progress::Finish(Err(database_runtime(operation))),
        }
    }
}

} // verus!
