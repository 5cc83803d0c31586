//! Why transactions that overlap do not disturb each other.
//!
//! At each stage a transaction rests on a few facts about the committed tables.
//! Its locks keep others from changing those facts, so at its end the committed
//! tables are changed, and the operation is answered, as if the transaction had
//! run in that moment alone.

use vstd::prelude::*;

use crate::contracts::{CreateOrganizationError, CreateOrganizationResponse};
use crate::failure::RuntimeFailure;
use crate::postgres_plugin::creation;
use crate::postgres_plugin::creation::{Creation, CreationStage};
use crate::postgres_plugin::effects;
use crate::postgres_plugin::history;
use crate::postgres_plugin::history::Event;
use crate::postgres_plugin::membership;
use crate::postgres_plugin::membership::{
    Addition, AdditionStage, MembershipCommandReplay, Removal, RemovalStage,
};
use crate::postgres_plugin::overlap::{Lock, Operation, Running};
use crate::postgres_plugin::statements::{CommandRow, Statement};
use crate::postgres_plugin::store;
use crate::postgres_plugin::store::{MembershipRecord, OrganizationRecord, ReceiptKey, Store};
use crate::transaction::Progress;

verus! {

/// The receipt of a command that is not complete.
pub open spec fn pending(
    operation: Seq<char>,
    organization_id: Seq<char>,
    subject: Seq<char>,
) -> CommandRow<Seq<char>> {
    CommandRow {
        operation,
        organization_id,
        subject,
        membership_id: None,
        result_revision: None,
        changed: None,
    }
}

impl Creation<Seq<char>> {
    /// The statement of a stage that has one.
    pub open spec fn statement(self, stage: CreationStage<Seq<char>>) -> Statement<Seq<char>> {
        self.at(stage).requested()->Execute_0
    }

    /// What was executed before the creation came to its stage.
    pub open spec fn executed_before(self) -> Seq<Statement<Seq<char>>> {
        let reserve = self.statement(CreationStage::Reserve);
        let organize = self.statement(CreationStage::InsertOrganization);
        match self.stage {
            CreationStage::Begin => seq![],
            CreationStage::Reserve => seq![],
            CreationStage::ReadReplay => seq![reserve],
            CreationStage::CommitReplay { .. } => seq![reserve].push(
                self.statement(CreationStage::ReadReplay),
            ),
            CreationStage::InsertOrganization => seq![reserve],
            CreationStage::InsertOwner => seq![reserve].push(organize),
            CreationStage::Commit => seq![reserve].push(organize).push(
                self.statement(CreationStage::InsertOwner),
            ),
        }
    }

    /// What the creation rests on at its stage.
    pub open spec fn stands_on(self, committed: Store, locks: Set<Lock>) -> bool {
        let found = committed.creations.contains_key(self.key());
        let reserved = !found && locks.contains(Lock::CreationKey(self.key()));
        &&& !committed.organizations.contains_key(self.organization_id)
        &&& !committed.has_membership(self.owner_membership_id)
        &&& match self.stage {
            CreationStage::Begin => true,
            CreationStage::Reserve => true,
            CreationStage::ReadReplay => found,
            CreationStage::CommitReplay { organization_id, owner_membership_id } => found
                && creation::replay_answer(
                committed.creations[self.key()],
                self.name,
                self.slug,
                self.owner_subject,
            ) == Ok::<_, CreateOrganizationError>(
                CreateOrganizationResponse { created: false, organization_id, owner_membership_id },
            ),
            CreationStage::InsertOrganization => reserved,
            CreationStage::InsertOwner => reserved && !committed.slug_taken(self.slug)
                && locks.contains(Lock::Slug(self.slug)),
            CreationStage::Commit => reserved && !committed.slug_taken(self.slug)
                && locks.contains(Lock::Slug(self.slug)),
        }
    }

    /// What the creation sees at its stage.
    pub open spec fn seen(self, committed: Store, started: int) -> Store {
        let reserved = Store {
            creations: committed.creations.insert(self.key(), self.receipt()),
            ..committed
        };
        match self.stage {
            CreationStage::InsertOrganization => reserved,
            CreationStage::InsertOwner => Store {
                organizations: committed.organizations.insert(
                    self.organization_id,
                    OrganizationRecord {
                        name: self.name,
                        slug: self.slug,
                        active: true,
                        revision: 1,
                    },
                ),
                ..reserved
            },
            CreationStage::Commit => committed.with_creation(self, started),
            _ => committed,
        }
    }
}

proof fn lemma_one_more(
    committed: Store,
    statements: Seq<Statement<Seq<char>>>,
    statement: Statement<Seq<char>>,
    started: int,
)
    ensures
        committed.with_executed(statements.push(statement), started) == committed.with_executed(
            statements,
            started,
        ).executed(statement, started).0,
{
    assert(statements.push(statement).drop_last() =~= statements);
}

/// A creation sees the committed tables with the rows that it wrote.
#[verifier::rlimit(40)]
proof fn lemma_creation_sees(
    committed: Store,
    creation: Creation<Seq<char>>,
    locks: Set<Lock>,
    started: int,
)
    requires
        committed.valid(),
        creation.stands_on(committed, locks),
    ensures
        committed.with_executed(creation.executed_before(), started) == creation.seen(
            committed,
            started,
        ),
{
    let reserve = creation.statement(CreationStage::Reserve);
    let organize = creation.statement(CreationStage::InsertOrganization);
    let own = creation.statement(CreationStage::InsertOwner);
    let read = creation.statement(CreationStage::ReadReplay);
    let none: Seq<Statement<Seq<char>>> = seq![];
    lemma_one_more(committed, none, reserve, started);
    if committed.creations.contains_key(creation.key()) {
        lemma_one_more(committed, seq![reserve], read, started);
    } else {
        let reserved = creation.at(CreationStage::InsertOrganization).seen(committed, started);
        assert(committed.with_executed(seq![reserve], started) == reserved);
        assert(reserved.organizations == committed.organizations);
        assert(reserved.slug_taken(creation.slug) == committed.slug_taken(creation.slug));
        if !committed.slug_taken(creation.slug) {
            lemma_one_more(committed, seq![reserve], organize, started);
            let organized = creation.at(CreationStage::InsertOwner).seen(committed, started);
            assert(committed.with_executed(seq![reserve].push(organize), started) == organized);
            lemma_one_more(committed, seq![reserve].push(organize), own, started);
            assert(organized.memberships == committed.memberships);
            assert(organized.has_membership(creation.owner_membership_id)
                == committed.has_membership(creation.owner_membership_id));
            lemma_new_organization_has_no_member(
                committed,
                creation.organization_id,
                creation.owner_subject,
            );
            assert(committed.with_executed(seq![reserve].push(organize).push(own), started)
                == committed.with_creation(creation, started));
        }
    }
}

proof fn lemma_new_organization_has_no_member(
    committed: Store,
    organization_id: Seq<char>,
    subject: Seq<char>,
)
    requires
        committed.valid(),
        !committed.organizations.contains_key(organization_id),
    ensures
        committed.member(organization_id, subject) is None,
{
    if committed.member(organization_id, subject) is Some {
        let i = choose|i: int|
            store::is_member_at(committed.memberships, i, organization_id, subject);
        assert(committed.organizations.contains_key(committed.memberships[i].organization_id));
    }
}

impl Addition<Seq<char>> {
    /// The statement of a stage that has one.
    pub open spec fn statement(self, stage: AdditionStage<Seq<char>>) -> Statement<Seq<char>> {
        self.at(stage).requested()->Execute_0
    }

    /// What was executed before the addition came to its stage.
    pub open spec fn executed_before(self) -> Seq<Statement<Seq<char>>> {
        let reserved = seq![self.statement(AdditionStage::Reserve)];
        let locked = reserved.push(self.statement(AdditionStage::LockOrganization));
        let read = locked.push(self.statement(AdditionStage::ReadMember));
        let inserted = read.push(self.statement(AdditionStage::InsertMember));
        match self.stage {
            AdditionStage::Begin => seq![],
            AdditionStage::Reserve => seq![],
            AdditionStage::ReadReplay => reserved,
            AdditionStage::CommitReplay { .. } => reserved.push(
                self.statement(AdditionStage::ReadReplay),
            ),
            AdditionStage::LockOrganization => reserved,
            AdditionStage::ReadMember => locked,
            AdditionStage::InsertMember => read,
            AdditionStage::Complete { created, .. } => if created {
                inserted
            } else {
                read
            },
            AdditionStage::Commit { membership_id, revision, created } => (if created {
                inserted
            } else {
                read
            }).push(
                self.statement(AdditionStage::Complete { membership_id, revision, created }),
            ),
        }
    }

    /// Whether the result is the one that the committed tables ask for.
    pub open spec fn results_in(
        self,
        committed: Store,
        membership_id: Seq<char>,
        revision: i64,
        created: bool,
    ) -> bool {
        match committed.member(self.organization_id, self.subject) {
            Some(member) => !created && membership_id == member.membership_id && revision
                == member.revision,
            None => created && membership_id == self.generated_membership_id && revision == 1,
        }
    }

    /// What the addition rests on at its stage.
    pub open spec fn stands_on(self, committed: Store, locks: Set<Lock>) -> bool {
        let found = committed.commands.contains_key(self.key());
        let reserved = !found && locks.contains(Lock::CommandKey(self.key()));
        let locked = reserved && committed.is_active(self.organization_id) && locks.contains(
            Lock::Organization(self.organization_id),
        );
        &&& !committed.has_membership(self.generated_membership_id)
        &&& match self.stage {
            AdditionStage::Begin => true,
            AdditionStage::Reserve => true,
            AdditionStage::ReadReplay => found,
            AdditionStage::CommitReplay { membership_id, revision } => found
                && membership::command_replay(
                committed.commands[self.key()],
                membership::ADD_MEMBER@,
                self.organization_id,
                self.subject,
            ) == Ok::<_, RuntimeFailure<Seq<char>>>(
                MembershipCommandReplay::Exact { membership_id, revision },
            ),
            AdditionStage::LockOrganization => reserved,
            AdditionStage::ReadMember => locked,
            AdditionStage::InsertMember => locked && committed.member(
                self.organization_id,
                self.subject,
            ) is None,
            AdditionStage::Complete { membership_id, revision, created } => locked
                && self.results_in(committed, membership_id, revision, created),
            AdditionStage::Commit { membership_id, revision, created } => locked
                && self.results_in(committed, membership_id, revision, created),
        }
    }

    /// What the addition sees at its stage.
    pub open spec fn seen(self, committed: Store, started: int) -> Store {
        let row = pending(membership::ADD_MEMBER@, self.organization_id, self.subject);
        let reserved = committed.with_command(self.key(), row);
        let with_member = committed.with_membership(self.membership(started));
        match self.stage {
            AdditionStage::LockOrganization => reserved,
            AdditionStage::ReadMember => reserved,
            AdditionStage::InsertMember => reserved,
            AdditionStage::Complete { created, .. } => if created {
                with_member.with_command(self.key(), row)
            } else {
                reserved
            },
            AdditionStage::Commit { membership_id, revision, created } => (if created {
                with_member
            } else {
                committed
            }).with_command(self.key(), self.receipt(membership_id, revision, created)),
            _ => committed,
        }
    }
}

/// An addition sees the committed tables with the rows that it wrote.
#[verifier::rlimit(40)]
proof fn lemma_addition_sees(
    committed: Store,
    addition: Addition<Seq<char>>,
    locks: Set<Lock>,
    started: int,
)
    requires
        committed.valid(),
        addition.stands_on(committed, locks),
    ensures
        committed.with_executed(addition.executed_before(), started) == addition.seen(
            committed,
            started,
        ),
    decreases (if addition.stage is Commit { 1int } else { 0 }),
{
    let reserve = addition.statement(AdditionStage::Reserve);
    let lock = addition.statement(AdditionStage::LockOrganization);
    let read = addition.statement(AdditionStage::ReadMember);
    let insert = addition.statement(AdditionStage::InsertMember);
    let replay = addition.statement(AdditionStage::ReadReplay);
    let reserved = addition.at(AdditionStage::LockOrganization).seen(committed, started);
    lemma_one_more(committed, seq![], reserve, started);
    lemma_one_more(committed, seq![reserve], replay, started);
    lemma_one_more(committed, seq![reserve], lock, started);
    lemma_one_more(committed, seq![reserve].push(lock), read, started);
    lemma_one_more(committed, seq![reserve].push(lock).push(read), insert, started);
    assert(reserved.memberships == committed.memberships);
    assert(reserved.has_membership(addition.generated_membership_id) == committed.has_membership(
        addition.generated_membership_id,
    ));
    if let AdditionStage::Commit { membership_id, revision, created } = addition.stage {
        let complete = AdditionStage::Complete { membership_id, revision, created };
        lemma_addition_sees(committed, addition.at(complete), locks, started);
        lemma_one_more(
            committed,
            addition.at(complete).executed_before(),
            addition.statement(complete),
            started,
        );
    }
    assert(committed.with_executed(addition.executed_before(), started) == addition.seen(
        committed,
        started,
    ));
}

impl Removal<Seq<char>> {
    /// The statement of a stage that has one.
    pub open spec fn statement(self, stage: RemovalStage<Seq<char>>) -> Statement<Seq<char>> {
        self.at(stage).requested()->Execute_0
    }

    /// What was executed before the removal came to its stage.
    pub open spec fn executed_before(self) -> Seq<Statement<Seq<char>>> {
        let reserved = seq![self.statement(RemovalStage::Reserve)];
        let locked = reserved.push(self.statement(RemovalStage::LockOrganization));
        let read = locked.push(self.statement(RemovalStage::ReadMember));
        match self.stage {
            RemovalStage::Begin => seq![],
            RemovalStage::Reserve => seq![],
            RemovalStage::ReadReplay => reserved,
            RemovalStage::CommitReplay { .. } => reserved.push(
                self.statement(RemovalStage::ReadReplay),
            ),
            RemovalStage::LockOrganization => reserved,
            RemovalStage::ReadMember => locked,
            RemovalStage::RemoveMember { .. } => read,
            RemovalStage::Complete { membership_id, revision } => read.push(
                self.statement(RemovalStage::RemoveMember { membership_id, revision }),
            ),
            RemovalStage::Commit { membership_id, revision } => read.push(
                self.statement(RemovalStage::RemoveMember { membership_id, revision }),
            ).push(self.statement(RemovalStage::Complete { membership_id, revision })),
        }
    }

    /// Whether the result is the one that the committed tables ask for.
    pub open spec fn results_in(
        self,
        committed: Store,
        membership_id: Seq<char>,
        revision: i64,
    ) -> bool {
        committed.member(self.organization_id, self.subject) matches Some(member)
            && !member.is_owner && membership_id == member.membership_id && revision
            == member.revision + 1
    }

    /// What the removal rests on at its stage.
    pub open spec fn stands_on(self, committed: Store, locks: Set<Lock>) -> bool {
        let found = committed.commands.contains_key(self.key());
        let reserved = !found && locks.contains(Lock::CommandKey(self.key()));
        let locked = reserved && committed.is_active(self.organization_id) && locks.contains(
            Lock::Organization(self.organization_id),
        );
        match self.stage {
            RemovalStage::Begin => true,
            RemovalStage::Reserve => true,
            RemovalStage::ReadReplay => found,
            RemovalStage::CommitReplay { membership_id, revision } => found
                && membership::command_replay(
                committed.commands[self.key()],
                membership::REMOVE_MEMBER@,
                self.organization_id,
                self.subject,
            ) == Ok::<_, RuntimeFailure<Seq<char>>>(
                MembershipCommandReplay::Exact { membership_id, revision },
            ),
            RemovalStage::LockOrganization => reserved,
            RemovalStage::ReadMember => locked,
            RemovalStage::RemoveMember { membership_id, revision } => locked && self.results_in(
                committed,
                membership_id,
                revision,
            ),
            RemovalStage::Complete { membership_id, revision } => locked && self.results_in(
                committed,
                membership_id,
                revision,
            ),
            RemovalStage::Commit { membership_id, revision } => locked && self.results_in(
                committed,
                membership_id,
                revision,
            ),
        }
    }

    /// What the removal sees at its stage.
    pub open spec fn seen(self, committed: Store) -> Store {
        let row = pending(membership::REMOVE_MEMBER@, self.organization_id, self.subject);
        let reserved = committed.with_command(self.key(), row);
        let member = committed.member(self.organization_id, self.subject)->0;
        let without = committed.without_member(self.organization_id, member);
        match self.stage {
            RemovalStage::LockOrganization => reserved,
            RemovalStage::ReadMember => reserved,
            RemovalStage::RemoveMember { .. } => reserved,
            RemovalStage::Complete { .. } => without.with_command(self.key(), row),
            RemovalStage::Commit { membership_id, revision } => without.with_command(
                self.key(),
                self.receipt(membership_id, revision),
            ),
            _ => committed,
        }
    }
}

/// A removal sees the committed tables with the rows that it wrote.
#[verifier::rlimit(40)]
proof fn lemma_removal_sees(
    committed: Store,
    removal: Removal<Seq<char>>,
    locks: Set<Lock>,
    started: int,
)
    requires
        committed.valid(),
        removal.stands_on(committed, locks),
    ensures
        committed.with_executed(removal.executed_before(), started) == removal.seen(committed),
    decreases (if removal.stage is Commit { 1int } else { 0 }),
{
    let reserve = removal.statement(RemovalStage::Reserve);
    let lock = removal.statement(RemovalStage::LockOrganization);
    let read = removal.statement(RemovalStage::ReadMember);
    let replay = removal.statement(RemovalStage::ReadReplay);
    lemma_one_more(committed, seq![], reserve, started);
    lemma_one_more(committed, seq![reserve], replay, started);
    lemma_one_more(committed, seq![reserve], lock, started);
    lemma_one_more(committed, seq![reserve].push(lock), read, started);
    match removal.stage {
        RemovalStage::Complete { membership_id, revision } => {
            lemma_one_more(
                committed,
                seq![reserve].push(lock).push(read),
                removal.statement(RemovalStage::RemoveMember { membership_id, revision }),
                started,
            );
        },
        RemovalStage::Commit { membership_id, revision } => {
            let complete = RemovalStage::Complete { membership_id, revision };
            lemma_removal_sees(committed, removal.at(complete), locks, started);
            lemma_one_more(
                committed,
                removal.at(complete).executed_before(),
                removal.statement(complete),
                started,
            );
        },
        _ => {},
    }
    assert(committed.with_executed(removal.executed_before(), started) == removal.seen(committed));
}

impl Running {
    /// Whether the transaction came as far as it did by what the committed
    /// tables still say.
    pub open spec fn stands_on(self, committed: Store) -> bool {
        match (self.begun, self.operation) {
            (Operation::Create(begun), Operation::Create(creation)) => {
                &&& begun == creation.at(CreationStage::Begin)
                &&& self.executed == creation.executed_before()
                &&& creation.stands_on(committed, self.locks)
            },
            (Operation::Add(begun), Operation::Add(addition)) => {
                &&& begun == addition.at(AdditionStage::Begin)
                &&& self.executed == addition.executed_before()
                &&& addition.stands_on(committed, self.locks)
            },
            (Operation::Remove(begun), Operation::Remove(removal)) => {
                &&& begun == removal.at(RemovalStage::Begin)
                &&& self.executed == removal.executed_before()
                &&& removal.stands_on(committed, self.locks)
            },
            _ => false,
        }
    }

    /// The operation as one event.
    pub open spec fn event(self) -> Event {
        self.begun.event(self.started)
    }

    /// Whether the current request takes the transaction on, or ends it as if
    /// it had run alone on the committed tables.
    pub open spec fn is_served_as_alone(self, committed: Store) -> bool {
        &&& committed.admits(self.event())
        &&& match self.operation.advanced(self.reply(committed)) {
            Progress::Continue(next) => self.operation.requested() !is Commit && self.continued(
                committed,
                next,
            ).stands_on(committed),
            Progress::Finish(answer) => {
                &&& committed.answer(self.event()) == Some(answer)
                &&& committed.after(self.event()) == self.left(committed)
            },
        }
    }
}

#[verifier::rlimit(60)]
proof fn lemma_creation_is_served(
    committed: Store,
    running: Running,
    creation: Creation<Seq<char>>,
)
    requires
        committed.valid(),
        running.stands_on(committed),
        running.operation == Operation::Create(creation),
    ensures
        running.is_served_as_alone(committed),
{
    let begun = creation.at(CreationStage::Begin);
    lemma_creation_sees(committed, creation, running.locks, running.started);
    effects::law_creation_has_its_effect(committed, begun, running.started);
    let reserved = creation.at(CreationStage::InsertOrganization).seen(committed, running.started);
    assert(reserved.organizations == committed.organizations);
    assert(reserved.slug_taken(creation.slug) == committed.slug_taken(creation.slug));
    let organized = creation.at(CreationStage::InsertOwner).seen(committed, running.started);
    assert(organized.memberships == committed.memberships);
    assert(organized.has_membership(creation.owner_membership_id) == committed.has_membership(
        creation.owner_membership_id,
    ));
    lemma_new_organization_has_no_member(
        committed,
        creation.organization_id,
        creation.owner_subject,
    );
    assert(begun.key() == creation.key());
    assert(begun.receipt() == creation.receipt());
    assert(committed.with_creation(begun, running.started) == committed.with_creation(
        creation,
        running.started,
    ));
}

#[verifier::rlimit(60)]
proof fn lemma_addition_is_served(
    committed: Store,
    running: Running,
    addition: Addition<Seq<char>>,
)
    requires
        committed.valid(),
        running.stands_on(committed),
        running.operation == Operation::Add(addition),
    ensures
        running.is_served_as_alone(committed),
{
    let begun = addition.at(AdditionStage::Begin);
    lemma_addition_sees(committed, addition, running.locks, running.started);
    effects::law_addition_has_its_effect(committed, begun, running.started);
    let reserved = addition.at(AdditionStage::LockOrganization).seen(committed, running.started);
    assert(reserved.memberships == committed.memberships);
    assert(reserved.organizations == committed.organizations);
    assert(reserved.has_membership(addition.generated_membership_id) == committed.has_membership(
        addition.generated_membership_id,
    ));
    assert(begun.key() == addition.key());
    assert(begun.membership(running.started) == addition.membership(running.started));
}

#[verifier::rlimit(60)]
proof fn lemma_removal_is_served(committed: Store, running: Running, removal: Removal<Seq<char>>)
    requires
        committed.valid(),
        running.stands_on(committed),
        running.operation == Operation::Remove(removal),
    ensures
        running.is_served_as_alone(committed),
{
    let begun = removal.at(RemovalStage::Begin);
    lemma_removal_sees(committed, removal, running.locks, running.started);
    effects::law_removal_has_its_effect(committed, begun, running.started);
    let reserved = removal.at(RemovalStage::LockOrganization).seen(committed);
    assert(reserved.memberships == committed.memberships);
    assert(reserved.organizations == committed.organizations);
    assert(begun.key() == removal.key());
}

/// A transaction that stands on the committed tables goes on, or ends as if it
/// had run alone on them.
pub proof fn lemma_running_is_served(committed: Store, running: Running)
    requires
        committed.valid(),
        running.stands_on(committed),
    ensures
        running.is_served_as_alone(committed),
{
    match running.operation {
        Operation::Create(creation) => {
            lemma_creation_is_served(committed, running, creation);
        },
        Operation::Add(addition) => {
            lemma_addition_is_served(committed, running, addition);
        },
        Operation::Remove(removal) => {
            lemma_removal_is_served(committed, running, removal);
        },
    }
}

/// Whether tables that were committed in the meantime leave a transaction what
/// it rests on.
pub open spec fn spares(before: Store, after: Store, running: Running) -> bool {
    &&& after.keeps_receipts_of(before)
    &&& forall|id: Seq<char>| #[trigger]
        running.begun.draws_organization(id) && !before.organizations.contains_key(id)
            ==> !after.organizations.contains_key(id)
    &&& forall|id: Seq<char>| #[trigger]
        running.begun.draws_membership(id) && !before.has_membership(id)
            ==> !after.has_membership(id)
    &&& forall|key: ReceiptKey| #[trigger]
        running.locks.contains(Lock::CreationKey(key)) && !before.creations.contains_key(key)
            ==> !after.creations.contains_key(key)
    &&& forall|key: ReceiptKey| #[trigger]
        running.locks.contains(Lock::CommandKey(key)) && !before.commands.contains_key(key)
            ==> !after.commands.contains_key(key)
    &&& forall|slug: Seq<char>| #[trigger]
        running.locks.contains(Lock::Slug(slug)) && !before.slug_taken(slug)
            ==> !after.slug_taken(slug)
    &&& forall|id: Seq<char>| #[trigger]
        running.locks.contains(Lock::Organization(id)) && before.is_active(id)
            ==> after.is_active(id)
    &&& forall|id: Seq<char>, subject: Seq<char>|
        running.locks.contains(Lock::Organization(id)) && before.is_active(id)
            ==> #[trigger] after.member(id, subject) == before.member(id, subject)
}

/// A transaction that is spared still stands.
pub proof fn lemma_spared_running_stands(before: Store, after: Store, running: Running)
    requires
        running.stands_on(before),
        spares(before, after, running),
    ensures
        running.stands_on(after),
{
    match running.operation {
        Operation::Create(creation) => {
            assert(running.begun.draws_organization(creation.organization_id));
            assert(running.begun.draws_membership(creation.owner_membership_id));
        },
        Operation::Add(addition) => {
            assert(running.begun.draws_membership(addition.generated_membership_id));
            assert(after.member(addition.organization_id, addition.subject) == before.member(
                addition.organization_id,
                addition.subject,
            ) || !before.is_active(addition.organization_id) || !running.locks.contains(
                Lock::Organization(addition.organization_id),
            ));
        },
        Operation::Remove(removal) => {
            assert(after.member(removal.organization_id, removal.subject) == before.member(
                removal.organization_id,
                removal.subject,
            ) || !before.is_active(removal.organization_id) || !running.locks.contains(
                Lock::Organization(removal.organization_id),
            ));
        },
    }
}

/// Whether two transactions hold different locks and drew different
/// identifiers.
pub open spec fn apart(left: Running, right: Running) -> bool {
    &&& left.begun.draws_apart(right.begun)
    &&& forall|lock: Lock| !(#[trigger] left.locks.contains(lock) && right.locks.contains(lock))
}

proof fn lemma_same_member(
    before: Store,
    after: Store,
    organization_id: Seq<char>,
    subject: Seq<char>,
)
    requires
        after.only_latest_active(),
        forall|i: int| #[trigger]
            store::is_member_at(before.memberships, i, organization_id, subject)
                ==> store::is_member_at(after.memberships, i, organization_id, subject)
                && after.memberships[i] == before.memberships[i],
        forall|i: int| #[trigger]
            store::is_member_at(after.memberships, i, organization_id, subject)
                ==> store::is_member_at(before.memberships, i, organization_id, subject),
    ensures
        after.member(organization_id, subject) == before.member(organization_id, subject),
{
    if before.member(organization_id, subject) is Some {
        let i = choose|i: int|
            store::is_member_at(before.memberships, i, organization_id, subject);
        effects::lemma_member_is_found(after, i, organization_id, subject);
    }
}

proof fn lemma_created_spares(
    committed: Store,
    creation: Creation<Seq<char>>,
    started: int,
    running: Running,
)
    requires
        committed.valid(),
        committed.with_creation(creation, started).valid(),
        !committed.organizations.contains_key(creation.organization_id),
        !committed.creations.contains_key(creation.key()),
        !running.locks.contains(Lock::CreationKey(creation.key())),
        !running.locks.contains(Lock::Slug(creation.slug)),
        !running.begun.draws_organization(creation.organization_id),
        !running.begun.draws_membership(creation.owner_membership_id),
    ensures
        spares(committed, committed.with_creation(creation, started), running),
{
    let after = committed.with_creation(creation, started);
    let last = committed.memberships.len() as int;
    assert forall|id: Seq<char>| #[trigger] running.begun.draws_membership(id)
        && !committed.has_membership(id) implies !after.has_membership(id) by {
        if after.has_membership(id) {
            let i = choose|i: int|
                0 <= i < after.memberships.len() && (#[trigger] after.memberships[i]).membership_id
                    == id;
            assert(i != last);
            assert(committed.memberships[i].membership_id == id);
        }
    }
    assert forall|slug: Seq<char>| #[trigger] running.locks.contains(Lock::Slug(slug))
        && !committed.slug_taken(slug) implies !after.slug_taken(slug) by {
        if after.slug_taken(slug) {
            let id = choose|id: Seq<char>| #[trigger]
                after.organizations.contains_key(id) && after.organizations[id].active
                    && after.organizations[id].slug == slug;
            assert(id != creation.organization_id);
            assert(committed.organizations.contains_key(id));
        }
    }
    assert forall|id: Seq<char>, subject: Seq<char>|
        running.locks.contains(Lock::Organization(id)) && committed.is_active(id) implies
        #[trigger] after.member(id, subject) == committed.member(id, subject) by {
        lemma_same_member(committed, after, id, subject);
    }
}

proof fn lemma_added_spares(
    committed: Store,
    addition: Addition<Seq<char>>,
    started: int,
    row: CommandRow<Seq<char>>,
    running: Running,
)
    requires
        committed.valid(),
        !committed.commands.contains_key(addition.key()),
        !running.locks.contains(Lock::CommandKey(addition.key())),
        !running.locks.contains(Lock::Organization(addition.organization_id)),
        !running.begun.draws_membership(addition.generated_membership_id),
    ensures
        spares(committed, committed.with_command(addition.key(), row), running),
        ({
            let after = committed.with_membership(addition.membership(started)).with_command(
                addition.key(),
                row,
            );
            after.valid() ==> spares(committed, after, running)
        }),
{
    let replied = committed.with_command(addition.key(), row);
    assert(replied.memberships == committed.memberships);
    assert(replied.organizations == committed.organizations);
    assert forall|id: Seq<char>| replied.has_membership(id) == committed.has_membership(id) by {}
    assert forall|slug: Seq<char>| replied.slug_taken(slug) == committed.slug_taken(slug) by {}
    let after = committed.with_membership(addition.membership(started)).with_command(
        addition.key(),
        row,
    );
    let last = committed.memberships.len() as int;
    assert(after.organizations == committed.organizations);
    assert forall|slug: Seq<char>| after.slug_taken(slug) == committed.slug_taken(slug) by {}
    assert forall|id: Seq<char>| #[trigger] running.begun.draws_membership(id)
        && !committed.has_membership(id) implies !after.has_membership(id) by {
        if after.has_membership(id) {
            let i = choose|i: int|
                0 <= i < after.memberships.len() && (#[trigger] after.memberships[i]).membership_id
                    == id;
            assert(i != last);
            assert(committed.memberships[i].membership_id == id);
        }
    }
    if after.valid() {
        assert forall|id: Seq<char>, subject: Seq<char>|
            running.locks.contains(Lock::Organization(id)) && committed.is_active(id) implies
            #[trigger] after.member(id, subject) == committed.member(id, subject) by {
            lemma_same_member(committed, after, id, subject);
        }
    }
}

proof fn lemma_removed_spares(
    committed: Store,
    removal: Removal<Seq<char>>,
    member: MembershipRecord,
    row: CommandRow<Seq<char>>,
    running: Running,
)
    requires
        committed.valid(),
        committed.without_member(removal.organization_id, member).with_command(
            removal.key(),
            row,
        ).valid(),
        !committed.commands.contains_key(removal.key()),
        !running.locks.contains(Lock::CommandKey(removal.key())),
        !running.locks.contains(Lock::Organization(removal.organization_id)),
    ensures
        spares(
            committed,
            committed.without_member(removal.organization_id, member).with_command(
                removal.key(),
                row,
            ),
            running,
        ),
{
    let after = committed.without_member(removal.organization_id, member).with_command(
        removal.key(),
        row,
    );
    assert(after.organizations == committed.organizations);
    assert forall|slug: Seq<char>| after.slug_taken(slug) == committed.slug_taken(slug) by {}
    assert forall|id: Seq<char>| after.has_membership(id) implies committed.has_membership(id) by {
        let i = choose|i: int|
            0 <= i < after.memberships.len() && (#[trigger] after.memberships[i]).membership_id
                == id;
        assert(committed.memberships[i].membership_id == id);
    }
    assert forall|id: Seq<char>, subject: Seq<char>|
        running.locks.contains(Lock::Organization(id)) && committed.is_active(id) implies
        #[trigger] after.member(id, subject) == committed.member(id, subject) by {
        lemma_same_member(committed, after, id, subject);
    }
}

/// The end of a transaction spares every other one.
pub proof fn lemma_end_spares(committed: Store, ending: Running, running: Running)
    requires
        committed.valid(),
        ending.stands_on(committed),
        apart(ending, running),
    ensures
        spares(committed, ending.left(committed), running),
{
    if ending.operation.requested() is Commit {
        lemma_running_is_served(committed, ending);
        history::lemma_event(committed, ending.event());
        match ending.operation {
            Operation::Create(creation) => {
                lemma_creation_sees(committed, creation, ending.locks, ending.started);
                assert(ending.begun.draws_organization(creation.organization_id));
                assert(ending.begun.draws_membership(creation.owner_membership_id));
                if creation.stage is Commit {
                    lemma_created_spares(committed, creation, ending.started, running);
                }
            },
            Operation::Add(addition) => {
                lemma_addition_sees(committed, addition, ending.locks, ending.started);
                assert(ending.begun.draws_membership(addition.generated_membership_id));
                if let AdditionStage::Commit { membership_id, revision, created } = addition.stage {
                    lemma_added_spares(
                        committed,
                        addition,
                        ending.started,
                        addition.receipt(membership_id, revision, created),
                        running,
                    );
                }
            },
            Operation::Remove(removal) => {
                lemma_removal_sees(committed, removal, ending.locks, ending.started);
                if let RemovalStage::Commit { membership_id, revision } = removal.stage {
                    lemma_removed_spares(
                        committed,
                        removal,
                        committed.member(removal.organization_id, removal.subject)->0,
                        removal.receipt(membership_id, revision),
                        running,
                    );
                }
            },
        }
    }
}

/// An archiving spares every transaction that does not hold the Organization.
pub proof fn lemma_archiving_spares(
    committed: Store,
    organization_id: Seq<char>,
    revision: i64,
    running: Running,
)
    requires
        !running.locks.contains(Lock::Organization(organization_id)),
    ensures
        spares(committed, committed.archived(organization_id, revision), running),
{
    let after = committed.archived(organization_id, revision);
    assert(after.memberships == committed.memberships);
    assert forall|id: Seq<char>| after.has_membership(id) == committed.has_membership(id) by {}
    assert forall|slug: Seq<char>| after.slug_taken(slug) implies committed.slug_taken(slug) by {
        let id = choose|id: Seq<char>| #[trigger]
            after.organizations.contains_key(id) && after.organizations[id].active
                && after.organizations[id].slug == slug;
        assert(committed.organizations.contains_key(id));
    }
}

} // verus!
