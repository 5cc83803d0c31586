//! Transactions that overlap, as a mathematical model.
//!
//! The model is a reading of what PostgreSQL promises for transactions that
//! read committed rows, and it is not tied to a running database. A statement
//! sees the committed tables with what its own transaction wrote. A key that a
//! transaction reserved, a slug that it inserted and an Organization that it
//! selected for update are locked until the transaction ends, and a statement
//! of another transaction that needs one of them waits. Everything else may
//! happen in any order. Identifiers are drawn by chance, and the model takes
//! them to be new.

use vstd::prelude::*;

use crate::contracts::{AddMemberResponse, CreateOrganizationResponse, RemoveMemberResponse};
use crate::postgres_plugin::creation::{Creation, CreationOutcomeView};
use crate::postgres_plugin::effects;
use crate::postgres_plugin::history;
use crate::postgres_plugin::history::Event;
use crate::postgres_plugin::isolation;
use crate::postgres_plugin::membership::{
    Addition, AdditionOutcomeView, Removal, RemovalOutcomeView,
};
use crate::postgres_plugin::statements::{Action, Reply, Statement};
use crate::postgres_plugin::store;
use crate::postgres_plugin::store::{ReceiptKey, Store};
use crate::transaction::Progress;

verus! {

/// An operation at some stage of its transaction.
pub enum Operation {
    Create(Creation<Seq<char>>),
    Add(Addition<Seq<char>>),
    Remove(Removal<Seq<char>>),
}

/// How an operation ends.
pub enum Answer {
    Created(CreationOutcomeView),
    Added(AdditionOutcomeView),
    Removed(RemovalOutcomeView),
}

/// What only one transaction at a time can have written or selected for
/// update.
pub enum Lock {
    CreationKey(ReceiptKey),
    CommandKey(ReceiptKey),
    Slug(Seq<char>),
    Organization(Seq<char>),
}

impl Operation {
    /// Whether the transaction is about to begin.
    pub open spec fn begins(self) -> bool {
        match self {
            Operation::Create(creation) => creation.stage is Begin,
            Operation::Add(addition) => addition.stage is Begin,
            Operation::Remove(removal) => removal.stage is Begin,
        }
    }

    /// What the current stage asks the database for.
    pub open spec fn requested(self) -> Action<Seq<char>> {
        match self {
            Operation::Create(creation) => creation.requested(),
            Operation::Add(addition) => addition.requested(),
            Operation::Remove(removal) => removal.requested(),
        }
    }

    /// Where a reply takes the transaction.
    pub open spec fn advanced(self, reply: Reply<Seq<char>>) -> Progress<Operation, Answer> {
        match self {
            Operation::Create(creation) => match creation.advanced(reply) {
                Progress::Continue(next) => Progress::Continue(Operation::Create(next)),
                Progress::Finish(outcome) => Progress::Finish(Answer::Created(outcome)),
            },
            Operation::Add(addition) => match addition.advanced(reply) {
                Progress::Continue(next) => Progress::Continue(Operation::Add(next)),
                Progress::Finish(outcome) => Progress::Finish(Answer::Added(outcome)),
            },
            Operation::Remove(removal) => match removal.advanced(reply) {
                Progress::Continue(next) => Progress::Continue(Operation::Remove(next)),
                Progress::Finish(outcome) => Progress::Finish(Answer::Removed(outcome)),
            },
        }
    }

    /// The operation as one event.
    pub open spec fn event(self, started: int) -> Event {
        match self {
            Operation::Create(creation) => Event::Create { creation, started },
            Operation::Add(addition) => Event::Add { addition, started },
            Operation::Remove(removal) => Event::Remove { removal, started },
        }
    }

    /// Whether the identifier was drawn for the Organization that the operation
    /// would insert.
    pub open spec fn draws_organization(self, id: Seq<char>) -> bool {
        self matches Operation::Create(creation) && creation.organization_id == id
    }

    /// Whether the identifier was drawn for the membership that the operation
    /// would insert.
    pub open spec fn draws_membership(self, id: Seq<char>) -> bool {
        match self {
            Operation::Create(creation) => creation.owner_membership_id == id,
            Operation::Add(addition) => addition.generated_membership_id == id,
            Operation::Remove(_) => false,
        }
    }

    /// Whether two operations drew different identifiers.
    pub open spec fn draws_apart(self, other: Operation) -> bool {
        &&& forall|id: Seq<char>|
            !(#[trigger] self.draws_organization(id) && other.draws_organization(id))
        &&& forall|id: Seq<char>|
            !(#[trigger] self.draws_membership(id) && other.draws_membership(id))
    }
}

/// What a statement waits for, as long as another transaction holds it.
pub open spec fn needed(statement: Statement<Seq<char>>) -> Option<Lock> {
    match statement {
        Statement::ReserveCreation { caller_instance, idempotency_key, .. } => Some(
            Lock::CreationKey((caller_instance, idempotency_key)),
        ),
        Statement::ReserveCommand { caller_instance, idempotency_key, .. } => Some(
            Lock::CommandKey((caller_instance, idempotency_key)),
        ),
        Statement::InsertOrganization { slug, .. } => Some(Lock::Slug(slug)),
        Statement::LockOrganization { organization_id } => Some(
            Lock::Organization(organization_id),
        ),
        _ => None,
    }
}

/// Whether the reply shows that the statement took what it needed: it inserted
/// a row, or found the one to lock.
pub open spec fn took(reply: Reply<Seq<char>>) -> bool {
    match reply {
        Reply::RowsAffected(count) => count == 1,
        Reply::Organization(active) => active is Some,
        _ => false,
    }
}

impl Store {
    /// The tables with what the statements of a transaction do to them. The
    /// locks of a transaction see to it that its statements do the same to
    /// whatever is committed while it runs, so that this is what they did.
    pub open spec fn with_executed(
        self,
        statements: Seq<Statement<Seq<char>>>,
        started: int,
    ) -> Store
        decreases statements.len(),
    {
        if statements.len() == 0 {
            self
        } else {
            self.with_executed(statements.drop_last(), started).executed(
                statements.last(),
                started,
            ).0
        }
    }

    /// How an event is answered. An archiving is answered nothing.
    pub open spec fn answer(self, event: Event) -> Option<Answer> {
        match event {
            Event::Create { creation, started } => Some(
                Answer::Created(self.create(creation, started).1),
            ),
            Event::Add { addition, started } => Some(Answer::Added(self.add(addition, started).1)),
            Event::Remove { removal, started } => Some(
                Answer::Removed(self.remove(removal, started).1),
            ),
            Event::Archive { .. } => None,
        }
    }
}

/// A transaction that has not ended.
pub struct Running {
    /// The operation as it began.
    pub begun: Operation,
    /// The operation as far as it has come.
    pub operation: Operation,
    /// When the transaction started.
    pub started: int,
    /// The statements that were executed.
    pub executed: Seq<Statement<Seq<char>>>,
    /// What the transaction holds until it ends.
    pub locks: Set<Lock>,
}

/// A transaction that ended otherwise than by a failure that undid it, or an
/// archiving. The answer is missing where nobody got one.
pub struct Ended {
    pub event: Event,
    pub answer: Option<Answer>,
}

/// The committed tables, the transactions that run, and what has ended, in
/// this order.
pub struct World {
    pub committed: Store,
    pub running: Map<nat, Running>,
    pub ended: Seq<Ended>,
}

/// One thing that can happen where transactions overlap.
pub enum Move {
    /// An operation is started.
    Start { id: nat, operation: Operation, started: int },
    /// The current request of a transaction is served.
    Serve { id: nat },
    /// A transaction fails, and what it did is undone.
    Fail { id: nat },
    /// A commit takes effect, but is not confirmed.
    Lose { id: nat },
    /// An operator archives an Organization.
    Archive { organization_id: Seq<char>, revision: i64 },
}

impl Running {
    /// The tables as the transaction sees them.
    pub open spec fn sees(self, committed: Store) -> Store {
        committed.with_executed(self.executed, self.started)
    }

    /// The reply to the current request.
    pub open spec fn reply(self, committed: Store) -> Reply<Seq<char>> {
        self.sees(committed).acted(self.operation.requested(), self.started).1
    }

    /// The transaction after the current request took it to `next`.
    pub open spec fn continued(self, committed: Store, next: Operation) -> Running {
        match self.operation.requested() {
            Action::Execute(statement) => Running {
                operation: next,
                executed: self.executed.push(statement),
                locks: if needed(statement) is Some && took(self.reply(committed)) {
                    self.locks.insert(needed(statement)->0)
                } else {
                    self.locks
                },
                ..self
            },
            _ => Running { operation: next, ..self },
        }
    }

    /// The committed tables after the transaction ended with its current
    /// request: only a commit changes them.
    pub open spec fn left(self, committed: Store) -> Store {
        if self.operation.requested() is Commit {
            self.sees(committed)
        } else {
            committed
        }
    }
}

impl World {
    /// Nothing runs yet.
    pub open spec fn at_rest(committed: Store) -> World {
        World { committed, running: Map::empty(), ended: Seq::empty() }
    }

    /// Whether the identifiers that the operation drew are new.
    pub open spec fn drew_new(self, operation: Operation) -> bool {
        &&& forall|id: Seq<char>| #[trigger]
            operation.draws_organization(id) ==> !self.committed.organizations.contains_key(id)
        &&& forall|id: Seq<char>| #[trigger]
            operation.draws_membership(id) ==> !self.committed.has_membership(id)
        &&& forall|id: nat| #[trigger]
            self.running.contains_key(id) ==> operation.draws_apart(self.running[id].begun)
                && self.running[id].begun.draws_apart(operation)
    }

    /// Whether a transaction other than `id` holds the lock.
    pub open spec fn held_by_another(self, id: nat, lock: Lock) -> bool {
        exists|other: nat| #[trigger]
            self.running.contains_key(other) && other != id && self.running[other].locks.contains(
                lock,
            )
    }

    /// Whether the current request of a transaction waits for another one.
    pub open spec fn waits(self, id: nat) -> bool {
        self.running[id].operation.requested() matches Action::Execute(statement) && needed(
            statement,
        ) is Some && self.held_by_another(id, needed(statement)->0)
    }

    /// Whether the move can be made.
    pub open spec fn allows(self, step: Move) -> bool {
        match step {
            Move::Start { id, operation, .. } => !self.running.contains_key(id)
                && operation.begins() && self.drew_new(operation),
            Move::Serve { id } => self.running.contains_key(id) && !self.waits(id),
            Move::Fail { id } => self.running.contains_key(id),
            Move::Lose { id } => self.running.contains_key(id)
                && self.running[id].operation.requested() is Commit,
            Move::Archive { organization_id, .. } => forall|id: nat| #[trigger]
                self.running.contains_key(id) ==> !self.running[id].locks.contains(
                    Lock::Organization(organization_id),
                ),
        }
    }

    /// The world after a transaction ended with its current request.
    pub open spec fn with_ended(self, id: nat, answer: Option<Answer>) -> World {
        let running = self.running[id];
        World {
            committed: running.left(self.committed),
            running: self.running.remove(id),
            ended: self.ended.push(Ended { event: running.begun.event(running.started), answer }),
        }
    }

    /// The world after a move.
    pub open spec fn after(self, step: Move) -> World {
        match step {
            Move::Start { id, operation, started } => World {
                running: self.running.insert(
                    id,
                    Running {
                        begun: operation,
                        operation,
                        started,
                        executed: Seq::empty(),
                        locks: Set::empty(),
                    },
                ),
                ..self
            },
            Move::Serve { id } => {
                let running = self.running[id];
                match running.operation.advanced(running.reply(self.committed)) {
                    Progress::Continue(next) => World {
                        running: self.running.insert(
                            id,
                            running.continued(self.committed, next),
                        ),
                        ..self
                    },
                    Progress::Finish(answer) => self.with_ended(id, Some(answer)),
                }
            },
            Move::Fail { id } => World { running: self.running.remove(id), ..self },
            Move::Lose { id } => self.with_ended(id, None),
            Move::Archive { organization_id, revision } => World {
                committed: self.committed.archived(organization_id, revision),
                ended: self.ended.push(
                    Ended { event: Event::Archive { organization_id, revision }, answer: None },
                ),
                ..self
            },
        }
    }

    /// The world after moves.
    pub open spec fn after_all(self, moves: Seq<Move>) -> World
        decreases moves.len(),
    {
        if moves.len() == 0 {
            self
        } else {
            self.after_all(moves.drop_last()).after(moves.last())
        }
    }

    /// Whether the moves can be made one after the other.
    pub open spec fn allows_all(self, moves: Seq<Move>) -> bool
        decreases moves.len(),
    {
        moves.len() == 0 || (self.allows_all(moves.drop_last()) && self.after_all(
            moves.drop_last(),
        ).allows(moves.last()))
    }

    /// What has ended, as events.
    pub open spec fn events(self) -> Seq<Event> {
        Seq::new(self.ended.len(), |i: int| self.ended[i].event)
    }
}

impl World {
    /// Whether every transaction stands on the committed tables, and no two
    /// share a lock or an identifier.
    pub open spec fn is_isolated(self) -> bool {
        &&& self.committed.valid()
        &&& forall|id: nat| #[trigger]
            self.running.contains_key(id) ==> self.running[id].stands_on(self.committed)
        &&& forall|id: nat, other: nat|
            #![trigger self.running.contains_key(id), self.running.contains_key(other)]
            self.running.contains_key(id) && self.running.contains_key(other) && id != other
                ==> isolation::apart(self.running[id], self.running[other])
    }

    /// Whether the events could have happened one after the other in the order
    /// in which they ended, with the same answers, and would have left the
    /// committed tables.
    pub open spec fn is_serial(self, base: Store) -> bool {
        &&& base.admits_all(self.events())
        &&& self.committed == base.after_all(self.events())
        &&& forall|i: int|
            0 <= i < self.ended.len() && (#[trigger] self.ended[i]).answer is Some
                ==> base.after_all(self.events().take(i)).answer(self.ended[i].event)
                == self.ended[i].answer
    }
}

proof fn lemma_one_more_event(world: World, later: World, base: Store, ended: Ended)
    requires
        world.is_serial(base),
        later.ended == world.ended.push(ended),
        world.committed.admits(ended.event),
        later.committed == world.committed.after(ended.event),
        ended.answer is Some ==> world.committed.answer(ended.event) == ended.answer,
    ensures
        later.is_serial(base),
{
    assert(later.events() =~= world.events().push(ended.event));
    assert(later.events().drop_last() =~= world.events());
    assert forall|i: int|
        0 <= i < later.ended.len() && (#[trigger] later.ended[i]).answer is Some implies
        base.after_all(later.events().take(i)).answer(later.ended[i].event)
        == later.ended[i].answer by {
        if i < world.ended.len() {
            assert(later.ended[i] == world.ended[i]);
            assert(later.events().take(i) =~= world.events().take(i));
        } else {
            assert(later.events().take(i) =~= world.events());
        }
    }
}

proof fn lemma_end(world: World, base: Store, id: nat, answer: Option<Answer>)
    requires
        world.is_isolated(),
        world.is_serial(base),
        world.running.contains_key(id),
        ({
            let running = world.running[id];
            match running.operation.advanced(running.reply(world.committed)) {
                Progress::Finish(finished) => answer is Some ==> answer == Some(finished),
                Progress::Continue(_) => false,
            }
        }),
    ensures
        world.with_ended(id, answer).is_isolated(),
        world.with_ended(id, answer).is_serial(base),
{
    let ending = world.running[id];
    let later = world.with_ended(id, answer);
    isolation::lemma_running_is_served(world.committed, ending);
    history::lemma_event(world.committed, ending.event());
    lemma_one_more_event(world, later, base, Ended { event: ending.event(), answer });
    assert forall|other: nat| #[trigger] later.running.contains_key(other) implies
        later.running[other].stands_on(later.committed) by {
        assert(world.running.contains_key(other));
        isolation::lemma_end_spares(world.committed, ending, world.running[other]);
        isolation::lemma_spared_running_stands(
            world.committed,
            later.committed,
            world.running[other],
        );
    }
    assert forall|left: nat, right: nat|
        #![trigger later.running.contains_key(left), later.running.contains_key(right)]
        later.running.contains_key(left) && later.running.contains_key(right) && left
            != right implies isolation::apart(later.running[left], later.running[right]) by {
        assert(world.running.contains_key(left));
        assert(world.running.contains_key(right));
    }
}

proof fn lemma_continue(world: World, base: Store, id: nat)
    requires
        world.is_isolated(),
        world.is_serial(base),
        world.allows(Move::Serve { id }),
        world.running[id].operation.advanced(world.running[id].reply(world.committed)) is Continue,
    ensures
        world.after(Move::Serve { id }).is_isolated(),
        world.after(Move::Serve { id }).is_serial(base),
{
    let running = world.running[id];
    let later = world.after(Move::Serve { id });
    isolation::lemma_running_is_served(world.committed, running);
    assert(later.events() =~= world.events());
    assert forall|other: nat| #[trigger] later.running.contains_key(other) implies
        later.running[other].stands_on(later.committed) by {
        if other != id {
            assert(world.running.contains_key(other));
        }
    }
    assert forall|left: nat, right: nat|
        #![trigger later.running.contains_key(left), later.running.contains_key(right)]
        later.running.contains_key(left) && later.running.contains_key(right) && left
            != right implies isolation::apart(later.running[left], later.running[right]) by {
        assert(world.running.contains_key(left));
        assert(world.running.contains_key(right));
    }
}

proof fn lemma_move(world: World, base: Store, step: Move)
    requires
        world.is_isolated(),
        world.is_serial(base),
        world.allows(step),
    ensures
        world.after(step).is_isolated(),
        world.after(step).is_serial(base),
{
    let later = world.after(step);
    match step {
        Move::Start { id, operation, started } => {
            assert(later.events() =~= world.events());
            assert(later.running[id].stands_on(later.committed)) by {
                match operation {
                    Operation::Create(creation) => {
                        assert(operation.draws_organization(creation.organization_id));
                        assert(operation.draws_membership(creation.owner_membership_id));
                        assert(creation.at(creation.stage) == creation);
                    },
                    Operation::Add(addition) => {
                        assert(operation.draws_membership(addition.generated_membership_id));
                        assert(addition.at(addition.stage) == addition);
                    },
                    Operation::Remove(removal) => {
                        assert(removal.at(removal.stage) == removal);
                    },
                }
            }
            assert forall|other: nat| #[trigger] later.running.contains_key(other) implies
                later.running[other].stands_on(later.committed) by {
                if other != id {
                    assert(world.running.contains_key(other));
                }
            }
            assert forall|left: nat, right: nat|
                #![trigger later.running.contains_key(left), later.running.contains_key(right)]
                later.running.contains_key(left) && later.running.contains_key(right) && left
                    != right implies isolation::apart(
                later.running[left],
                later.running[right],
            ) by {
                if left != id {
                    assert(world.running.contains_key(left));
                }
                if right != id {
                    assert(world.running.contains_key(right));
                }
            }
        },
        Move::Serve { id } => {
            let running = world.running[id];
            match running.operation.advanced(running.reply(world.committed)) {
                Progress::Continue(_) => {
                    lemma_continue(world, base, id);
                },
                Progress::Finish(answer) => {
                    lemma_end(world, base, id, Some(answer));
                },
            }
        },
        Move::Fail { id } => {
            assert(later.events() =~= world.events());
            assert forall|other: nat| #[trigger] later.running.contains_key(other) implies
                later.running[other].stands_on(later.committed) by {
                assert(world.running.contains_key(other));
            }
            assert forall|left: nat, right: nat|
                #![trigger later.running.contains_key(left), later.running.contains_key(right)]
                later.running.contains_key(left) && later.running.contains_key(right) && left
                    != right implies isolation::apart(
                later.running[left],
                later.running[right],
            ) by {
                assert(world.running.contains_key(left));
                assert(world.running.contains_key(right));
            }
        },
        Move::Lose { id } => {
            isolation::lemma_running_is_served(world.committed, world.running[id]);
            lemma_end(world, base, id, None);
        },
        Move::Archive { organization_id, revision } => {
            let event = Event::Archive { organization_id, revision };
            history::lemma_event(world.committed, event);
            lemma_one_more_event(world, later, base, Ended { event, answer: None });
            assert forall|other: nat| #[trigger] later.running.contains_key(other) implies
                later.running[other].stands_on(later.committed) by {
                isolation::lemma_archiving_spares(
                    world.committed,
                    organization_id,
                    revision,
                    world.running[other],
                );
                isolation::lemma_spared_running_stands(
                    world.committed,
                    later.committed,
                    world.running[other],
                );
            }
        },
    }
}

/// However transactions overlap, fail or lose their confirmation: what has
/// ended could have happened one after the other in the order in which it
/// ended, with the same answers, and the committed tables are those that it
/// would have left.
pub proof fn law_overlapping_transactions_are_serial(base: Store, moves: Seq<Move>)
    requires
        base.valid(),
        World::at_rest(base).allows_all(moves),
    ensures
        World::at_rest(base).after_all(moves).is_isolated(),
        World::at_rest(base).after_all(moves).is_serial(base),
    decreases moves.len(),
{
    let world = World::at_rest(base);
    if moves.len() == 0 {
        assert(world.events() =~= Seq::empty());
    } else {
        law_overlapping_transactions_are_serial(base, moves.drop_last());
        lemma_move(world.after_all(moves.drop_last()), base, moves.last());
    }
}

/// However transactions overlap, a subject never has more than one active
/// membership in an Organization.
pub proof fn law_overlap_keeps_one_active_membership(
    base: Store,
    moves: Seq<Move>,
    organization_id: Seq<char>,
    subject: Seq<char>,
    i: int,
    j: int,
)
    requires
        base.valid(),
        World::at_rest(base).allows_all(moves),
        ({
            let memberships = World::at_rest(base).after_all(moves).committed.memberships;
            &&& store::is_member_at(memberships, i, organization_id, subject)
            &&& store::is_member_at(memberships, j, organization_id, subject)
        }),
    ensures
        i == j,
{
    law_overlapping_transactions_are_serial(base, moves);
    let memberships = World::at_rest(base).after_all(moves).committed.memberships;
    assert(memberships[i].is_of(memberships[j].organization_id, memberships[j].subject));
    assert(memberships[j].is_of(memberships[i].organization_id, memberships[i].subject));
}

/// However transactions overlap: as long as the additions that made the subject
/// a member were in time, a membership check in an active Organization tells
/// whether the subject is a member, and whether an owner.
pub proof fn law_standing_is_told_where_transactions_overlap(
    base: Store,
    moves: Seq<Move>,
    organization_id: Seq<char>,
    subject: Seq<char>,
)
    requires
        base.valid(),
        World::at_rest(base).allows_all(moves),
        base.member_is_newest(organization_id, subject),
        base.are_in_time(
            World::at_rest(base).after_all(moves).events(),
            organization_id,
            subject,
        ),
        World::at_rest(base).after_all(moves).committed.is_active(organization_id),
    ensures
        ({
            let committed = World::at_rest(base).after_all(moves).committed;
            committed.standing_is(
                organization_id,
                subject,
                committed.true_standing(organization_id, subject),
            )
        }),
{
    law_overlapping_transactions_are_serial(base, moves);
    history::law_standing_is_told_after_a_run(
        base,
        World::at_rest(base).after_all(moves).events(),
        organization_id,
        subject,
    );
}

/// Of additions that overlap and repeat each other, those that succeed answer
/// the same membership and revision, and only the one that ended first may
/// have created it.
pub proof fn law_overlapping_additions_agree(base: Store, moves: Seq<Move>, i: int, j: int)
    requires
        base.valid(),
        World::at_rest(base).allows_all(moves),
        0 <= i < j < World::at_rest(base).after_all(moves).ended.len(),
        ({
            let ended = World::at_rest(base).after_all(moves).ended;
            &&& ended[i].event is Add
            &&& ended[j].event is Add
            &&& ended[i].event->addition.key() == ended[j].event->addition.key()
            &&& ended[i].event->addition.organization_id
                == ended[j].event->addition.organization_id
            &&& ended[i].event->addition.subject == ended[j].event->addition.subject
            &&& ended[i].answer matches Some(Answer::Added(Ok(Ok(_))))
            &&& ended[j].answer is Some
        }),
    ensures
        ({
            let ended = World::at_rest(base).after_all(moves).ended;
            let first = ended[i].answer->0->Added_0->Ok_0->Ok_0;
            ended[j].answer == Some(
                Answer::Added(
                    Ok(
                        Ok(
                            AddMemberResponse {
                                created: false,
                                membership_id: first.membership_id,
                                revision: first.revision,
                            },
                        ),
                    ),
                ),
            )
        }),
{
    law_overlapping_transactions_are_serial(base, moves);
    let world = World::at_rest(base).after_all(moves);
    let events = world.events();
    history::lemma_later_event(base, events, i, j);
    assert(world.ended[i].answer is Some);
    assert(world.ended[j].answer is Some);
    history::law_addition_is_replayed_ever_after(
        base.after_all(events.take(i)),
        events[i]->addition,
        events[i]->Add_started,
        events.subrange(i + 1, j),
        events[j]->addition,
        events[j]->Add_started,
    );
}

/// Of removals that overlap and repeat each other, those that succeed answer
/// the same membership and revision, and only the one that ended first may
/// have removed it.
pub proof fn law_overlapping_removals_agree(base: Store, moves: Seq<Move>, i: int, j: int)
    requires
        base.valid(),
        World::at_rest(base).allows_all(moves),
        0 <= i < j < World::at_rest(base).after_all(moves).ended.len(),
        ({
            let ended = World::at_rest(base).after_all(moves).ended;
            &&& ended[i].event is Remove
            &&& ended[j].event is Remove
            &&& ended[i].event->removal.key() == ended[j].event->removal.key()
            &&& ended[i].event->removal.organization_id == ended[j].event->removal.organization_id
            &&& ended[i].event->removal.subject == ended[j].event->removal.subject
            &&& ended[i].answer matches Some(Answer::Removed(Ok(Ok(_))))
            &&& ended[j].answer is Some
        }),
    ensures
        ({
            let ended = World::at_rest(base).after_all(moves).ended;
            let first = ended[i].answer->0->Removed_0->Ok_0->Ok_0;
            ended[j].answer == Some(
                Answer::Removed(
                    Ok(
                        Ok(
                            RemoveMemberResponse {
                                membership_id: first.membership_id,
                                removed: false,
                                revision: first.revision,
                            },
                        ),
                    ),
                ),
            )
        }),
{
    law_overlapping_transactions_are_serial(base, moves);
    let world = World::at_rest(base).after_all(moves);
    let events = world.events();
    history::lemma_later_event(base, events, i, j);
    assert(world.ended[i].answer is Some);
    assert(world.ended[j].answer is Some);
    history::law_removal_is_replayed_ever_after(
        base.after_all(events.take(i)),
        events[i]->removal,
        events[i]->Remove_started,
        events.subrange(i + 1, j),
        events[j]->removal,
        events[j]->Remove_started,
    );
}

/// Of creations that overlap and repeat each other, those that succeed answer
/// the same identifiers, and only the one that ended first may have created
/// the Organization.
pub proof fn law_overlapping_creations_agree(base: Store, moves: Seq<Move>, i: int, j: int)
    requires
        base.valid(),
        World::at_rest(base).allows_all(moves),
        0 <= i < j < World::at_rest(base).after_all(moves).ended.len(),
        ({
            let ended = World::at_rest(base).after_all(moves).ended;
            &&& ended[i].event is Create
            &&& ended[j].event is Create
            &&& ended[j].event->creation.repeats(ended[i].event->creation)
            &&& ended[i].answer matches Some(Answer::Created(Ok(Ok(_))))
            &&& ended[j].answer is Some
        }),
    ensures
        ({
            let ended = World::at_rest(base).after_all(moves).ended;
            let first = ended[i].answer->0->Created_0->Ok_0->Ok_0;
            ended[j].answer == Some(
                Answer::Created(
                    Ok(
                        Ok(
                            CreateOrganizationResponse {
                                created: false,
                                organization_id: first.organization_id,
                                owner_membership_id: first.owner_membership_id,
                            },
                        ),
                    ),
                ),
            )
        }),
{
    law_overlapping_transactions_are_serial(base, moves);
    let world = World::at_rest(base).after_all(moves);
    let events = world.events();
    history::lemma_later_event(base, events, i, j);
    assert(world.ended[i].answer is Some);
    assert(world.ended[j].answer is Some);
    history::law_creation_is_replayed_ever_after(
        base.after_all(events.take(i)),
        events[i]->creation,
        events[i]->Create_started,
        events.subrange(i + 1, j),
        events[j]->creation,
        events[j]->Create_started,
    );
}

proof fn lemma_repeated_creations(events: Seq<Event>)
    requires
        events.len() > 0,
        Store::empty().admits_all(events),
        forall|i: int|
            0 <= i < events.len() ==> (#[trigger] events[i]) is Create
                && events[i]->creation.repeats(events[0]->creation),
    ensures
        Store::empty().after_all(events) == Store::empty().with_creation(
            events[0]->creation,
            events[0]->Create_started,
        ),
    decreases events.len(),
{
    let past = events.drop_last();
    history::law_empty_tables_are_valid();
    if past.len() == 0 {
        assert(Store::empty().after_all(past) == Store::empty());
        effects::law_creation_has_its_effect(
            Store::empty(),
            events[0]->creation,
            events[0]->Create_started,
        );
    } else {
        assert forall|i: int| 0 <= i < past.len() implies (#[trigger] past[i]) is Create
            && past[i]->creation.repeats(past[0]->creation) by {
            assert(past[i] == events[i]);
        }
        lemma_repeated_creations(past);
        history::law_tables_stay_valid_and_receipts_stay(Store::empty(), past);
        let last = events.last();
        assert(last == events[events.len() - 1]);
        effects::law_creation_has_its_effect(
            Store::empty().after_all(past),
            last->creation,
            last->Create_started,
        );
    }
}

/// Creations that repeat each other on empty tables, overlapping in any way,
/// make one Organization with one owner and one receipt: the one that ended
/// first created it, and every other one answers its identifiers.
pub proof fn law_repeated_creation_creates_once(moves: Seq<Move>, i: int)
    requires
        World::at_rest(Store::empty()).allows_all(moves),
        0 <= i < World::at_rest(Store::empty()).after_all(moves).ended.len(),
        ({
            let ended = World::at_rest(Store::empty()).after_all(moves).ended;
            &&& forall|k: int|
                0 <= k < ended.len() ==> (#[trigger] ended[k]).event is Create
                    && ended[k].event->creation.repeats(ended[0].event->creation)
            &&& ended[i].answer is Some
        }),
    ensures
        ({
            let world = World::at_rest(Store::empty()).after_all(moves);
            let first = world.ended[0].event->creation;
            &&& world.ended[i].answer == Some(
                Answer::Created(
                    Ok(
                        Ok(
                            CreateOrganizationResponse {
                                created: i == 0,
                                organization_id: first.organization_id,
                                owner_membership_id: first.owner_membership_id,
                            },
                        ),
                    ),
                ),
            )
            &&& world.committed == Store::empty().with_creation(
                first,
                world.ended[0].event->Create_started,
            )
            &&& world.committed.organizations.dom() == set![first.organization_id]
            &&& world.committed.memberships.len() == 1
            &&& world.committed.creations.dom() == set![first.key()]
            &&& world.committed.commands.dom() == Set::<ReceiptKey>::empty()
        }),
{
    history::law_empty_tables_are_valid();
    law_overlapping_transactions_are_serial(Store::empty(), moves);
    let world = World::at_rest(Store::empty()).after_all(moves);
    let events = world.events();
    assert forall|k: int| 0 <= k < events.len() implies (#[trigger] events[k]) is Create
        && events[k]->creation.repeats(events[0]->creation) by {
        assert(world.ended[k].event is Create);
    }
    lemma_repeated_creations(events);
    let past = events.take(i);
    history::lemma_events_split(Store::empty(), events, i + 1);
    assert(events.take(i + 1).drop_last() =~= past);
    if i > 0 {
        assert forall|k: int| 0 <= k < past.len() implies (#[trigger] past[k]) is Create
            && past[k]->creation.repeats(past[0]->creation) by {
            assert(past[k] == events[k]);
        }
        lemma_repeated_creations(past);
    } else {
        assert(past =~= Seq::empty());
    }
    history::law_tables_stay_valid_and_receipts_stay(Store::empty(), past);
    assert(world.ended[i].answer is Some);
    effects::law_creation_has_its_effect(
        Store::empty().after_all(past),
        events[i]->creation,
        events[i]->Create_started,
    );
}

} // verus!
