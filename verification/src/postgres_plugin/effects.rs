//! What each operation does to the tables, and that the tables stay valid.

use vstd::prelude::*;

use crate::contracts::{
    AddMemberError, AddMemberResponse, CreateOrganizationError, CreateOrganizationResponse,
    RemoveMemberError, RemoveMemberResponse,
};
use crate::notation;
use crate::postgres_plugin;
use crate::postgres_plugin::creation;
use crate::postgres_plugin::creation::{Creation, CreationOutcomeView};
use crate::postgres_plugin::membership;
use crate::postgres_plugin::membership::{
    Addition, AdditionOutcomeView, MembershipCommandReplay, Removal, RemovalOutcomeView,
};
use crate::postgres_plugin::statements::{CommandRow, CreationRow};
use crate::postgres_plugin::store;
use crate::postgres_plugin::store::{MembershipRecord, OrganizationRecord, ReceiptKey, Store};

verus! {

impl<S> Creation<S> {
    /// The key of the receipt.
    pub open spec fn key(self) -> (S, S) {
        (self.caller_instance, self.idempotency_key)
    }

    /// The receipt.
    pub open spec fn receipt(self) -> CreationRow<S> {
        CreationRow {
            name: self.name,
            slug: self.slug,
            owner_subject: self.owner_subject,
            organization_id: self.organization_id,
            owner_membership_id: self.owner_membership_id,
        }
    }
}

impl Store {
    /// Whether no row has the identifiers of the creation, as far as it uses
    /// them. A creation whose key has a receipt uses none, and one whose slug
    /// is taken does not come to its membership.
    pub open spec fn can_create(self, creation: Creation<Seq<char>>) -> bool {
        self.creations.contains_key(creation.key()) || (!self.organizations.contains_key(
            creation.organization_id,
        ) && (self.slug_taken(creation.slug) || !self.has_membership(
            creation.owner_membership_id,
        )))
    }

    /// The tables with the Organization, its first owner and the receipt.
    pub open spec fn with_creation(self, creation: Creation<Seq<char>>, started: int) -> Store {
        Store {
            organizations: self.organizations.insert(
                creation.organization_id,
                OrganizationRecord {
                    name: creation.name,
                    slug: creation.slug,
                    active: true,
                    revision: 1,
                },
            ),
            memberships: self.memberships.push(
                MembershipRecord {
                    membership_id: creation.owner_membership_id,
                    organization_id: creation.organization_id,
                    subject: creation.owner_subject,
                    is_owner: true,
                    active: true,
                    revision: 1,
                    created_at: started,
                },
            ),
            creations: self.creations.insert(creation.key(), creation.receipt()),
            ..self
        }
    }

    /// What a creation does: a key that was used answers from its receipt, a
    /// slug that is taken is a conflict, and otherwise the Organization, its
    /// owner and the receipt are stored together. An identifier that a row has
    /// already is a failure.
    pub open spec fn creation_effect(self, creation: Creation<Seq<char>>, started: int) -> (
        Store,
        CreationOutcomeView,
    ) {
        if self.creations.contains_key(creation.key()) {
            (
                self,
                Ok(
                    creation::replay_answer(
                        self.creations[creation.key()],
                        creation.name,
                        creation.slug,
                        creation.owner_subject,
                    ),
                ),
            )
        } else if self.organizations.contains_key(creation.organization_id) {
            (self, Err(postgres_plugin::database_failure("insert organization"@)))
        } else if self.slug_taken(creation.slug) {
            (self, Ok(Err(CreateOrganizationError::SlugConflict)))
        } else if self.has_membership(creation.owner_membership_id) {
            (self, Err(postgres_plugin::database_failure("insert owner membership"@)))
        } else {
            (
                self.with_creation(creation, started),
                Ok(
                    Ok(
                        CreateOrganizationResponse {
                            created: true,
                            organization_id: creation.organization_id,
                            owner_membership_id: creation.owner_membership_id,
                        },
                    ),
                ),
            )
        }
    }
}

/// A creation does what its effect says, in one transaction.
#[verifier::rlimit(40)]
pub proof fn law_creation_has_its_effect(
    store: Store,
    creation: Creation<Seq<char>>,
    started: int,
)
    requires
        store.valid(),
        creation.stage is Begin,
    ensures
        store.create(creation, started) == store.creation_effect(creation, started),
{
    reveal_with_fuel(store::run_creation, 6);
    let reserved = Store {
        creations: store.creations.insert(creation.key(), creation.receipt()),
        ..store
    };
    assert(reserved.organizations == store.organizations);
    assert(reserved.slug_taken(creation.slug) == store.slug_taken(creation.slug));
    let organized = Store {
        organizations: reserved.organizations.insert(
            creation.organization_id,
            OrganizationRecord {
                name: creation.name,
                slug: creation.slug,
                active: true,
                revision: 1,
            },
        ),
        ..reserved
    };
    assert(organized.memberships == store.memberships);
    assert(organized.has_membership(creation.owner_membership_id) == store.has_membership(
        creation.owner_membership_id,
    ));
    reveal_strlit("organizations_pkey");
    reveal_strlit("organizations_active_slug_key");
    assert("organizations_pkey"@.len() != creation::ACTIVE_SLUG_CONSTRAINT@.len());
    if !store.organizations.contains_key(creation.organization_id) {
        assert forall|i: int|
            !store::is_member_at(
                store.memberships,
                i,
                creation.organization_id,
                creation.owner_subject,
            ) by {
            if store::is_member_at(
                store.memberships,
                i,
                creation.organization_id,
                creation.owner_subject,
            ) {
                assert(store.organizations.contains_key(store.memberships[i].organization_id));
            }
        }
    }
}

/// What a stored command answers to a command with its key.
pub open spec fn replayed_addition(
    row: CommandRow<Seq<char>>,
    addition: Addition<Seq<char>>,
) -> AdditionOutcomeView {
    match membership::command_replay(
        row,
        membership::ADD_MEMBER@,
        addition.organization_id,
        addition.subject,
    ) {
        Ok(MembershipCommandReplay::Exact { membership_id, revision }) => Ok(
            Ok(
                AddMemberResponse {
                    created: false,
                    membership_id,
                    revision: notation::decimal(revision as int),
                },
            ),
        ),
        Ok(MembershipCommandReplay::Conflict) => Ok(Err(AddMemberError::IdempotencyConflict)),
        Err(failure) => Err(failure),
    }
}

/// What a stored command answers to a command with its key.
pub open spec fn replayed_removal(
    row: CommandRow<Seq<char>>,
    removal: Removal<Seq<char>>,
) -> RemovalOutcomeView {
    match membership::command_replay(
        row,
        membership::REMOVE_MEMBER@,
        removal.organization_id,
        removal.subject,
    ) {
        Ok(MembershipCommandReplay::Exact { membership_id, revision }) => Ok(
            Ok(
                RemoveMemberResponse {
                    removed: false,
                    membership_id,
                    revision: notation::decimal(revision as int),
                },
            ),
        ),
        Ok(MembershipCommandReplay::Conflict) => Ok(Err(RemoveMemberError::IdempotencyConflict)),
        Err(failure) => Err(failure),
    }
}

impl<S> Addition<S> {
    /// The key of the receipt.
    pub open spec fn key(self) -> (S, S) {
        (self.caller_instance, self.idempotency_key)
    }
}

impl<S> Removal<S> {
    /// The key of the receipt.
    pub open spec fn key(self) -> (S, S) {
        (self.caller_instance, self.idempotency_key)
    }
}

impl Addition<Seq<char>> {
    /// The receipt of an addition with the given result.
    pub open spec fn receipt(
        self,
        membership_id: Seq<char>,
        revision: i64,
        changed: bool,
    ) -> CommandRow<Seq<char>> {
        CommandRow {
            operation: membership::ADD_MEMBER@,
            organization_id: self.organization_id,
            subject: self.subject,
            membership_id: Some(membership_id),
            result_revision: Some(revision),
            changed: Some(changed),
        }
    }

    /// The membership that an addition would insert.
    pub open spec fn membership(self, started: int) -> MembershipRecord {
        MembershipRecord {
            membership_id: self.generated_membership_id,
            organization_id: self.organization_id,
            subject: self.subject,
            is_owner: false,
            active: true,
            revision: 1,
            created_at: started,
        }
    }
}

impl Removal<Seq<char>> {
    /// The receipt of a removal with the given result.
    pub open spec fn receipt(self, membership_id: Seq<char>, revision: i64) -> CommandRow<
        Seq<char>,
    > {
        CommandRow {
            operation: membership::REMOVE_MEMBER@,
            organization_id: self.organization_id,
            subject: self.subject,
            membership_id: Some(membership_id),
            result_revision: Some(revision),
            changed: Some(true),
        }
    }
}

impl Store {
    /// Whether no row has the identifier of the addition, as far as it uses it:
    /// where its key has no receipt, the Organization is active and the subject
    /// is no member.
    pub open spec fn can_add(self, addition: Addition<Seq<char>>) -> bool {
        self.commands.contains_key(addition.key()) || !self.is_active(addition.organization_id)
            || self.member(addition.organization_id, addition.subject) is Some
            || !self.has_membership(addition.generated_membership_id)
    }

    /// The tables with one more command receipt.
    pub open spec fn with_command(self, key: ReceiptKey, row: CommandRow<Seq<char>>) -> Store {
        Store { commands: self.commands.insert(key, row), ..self }
    }

    /// What an addition does: a key that was used answers from its receipt, an
    /// Organization that is not active is not found, a subject who is a member
    /// stays that member, and anyone else becomes a member who is no owner. An
    /// identifier that a row has already is a failure.
    pub open spec fn addition_effect(self, addition: Addition<Seq<char>>, started: int) -> (
        Store,
        AdditionOutcomeView,
    ) {
        if self.commands.contains_key(addition.key()) {
            (self, replayed_addition(self.commands[addition.key()], addition))
        } else if !self.is_active(addition.organization_id) {
            (self, Ok(Err(AddMemberError::OrganizationNotFound)))
        } else {
            match self.member(addition.organization_id, addition.subject) {
                Some(member) => (
                    self.with_command(
                        addition.key(),
                        addition.receipt(member.membership_id, member.revision, false),
                    ),
                    Ok(
                        Ok(
                            AddMemberResponse {
                                created: false,
                                membership_id: member.membership_id,
                                revision: notation::decimal(member.revision as int),
                            },
                        ),
                    ),
                ),
                None => if self.has_membership(addition.generated_membership_id) {
                    (self, Err(postgres_plugin::database_failure("insert organization member"@)))
                } else {
                    (
                        self.with_membership(addition.membership(started)).with_command(
                            addition.key(),
                            addition.receipt(addition.generated_membership_id, 1, true),
                        ),
                        Ok(
                            Ok(
                                AddMemberResponse {
                                    created: true,
                                    membership_id: addition.generated_membership_id,
                                    revision: notation::decimal(1),
                                },
                            ),
                        ),
                    )
                },
            }
        }
    }

    /// The tables after the membership was tombstoned at its next revision.
    pub open spec fn without_member(
        self,
        organization_id: Seq<char>,
        member: MembershipRecord,
    ) -> Store {
        Store {
            memberships: store::tombstoned(
                self.memberships,
                organization_id,
                member.membership_id,
                (member.revision + 1) as i64,
            ),
            ..self
        }
    }

    /// What a removal does: a key that was used answers from its receipt, an
    /// Organization that is not active is not found, nor is a subject who is
    /// no member, an owner stays, and any other member is tombstoned at the
    /// next revision, unless there is none.
    pub open spec fn removal_effect(self, removal: Removal<Seq<char>>) -> (
        Store,
        RemovalOutcomeView,
    ) {
        if self.commands.contains_key(removal.key()) {
            (self, replayed_removal(self.commands[removal.key()], removal))
        } else if !self.is_active(removal.organization_id) {
            (self, Ok(Err(RemoveMemberError::OrganizationNotFound)))
        } else {
            match self.member(removal.organization_id, removal.subject) {
                None => (self, Ok(Err(RemoveMemberError::MembershipNotFound))),
                Some(member) => if member.is_owner {
                    (self, Ok(Err(RemoveMemberError::OwnerProtected)))
                } else if member.revision == i64::MAX {
                    (
                        self,
                        Err(postgres_plugin::invariant_failure("membership revision overflow"@)),
                    )
                } else {
                    (
                        self.without_member(removal.organization_id, member).with_command(
                            removal.key(),
                            removal.receipt(member.membership_id, (member.revision + 1) as i64),
                        ),
                        Ok(
                            Ok(
                                RemoveMemberResponse {
                                    membership_id: member.membership_id,
                                    removed: true,
                                    revision: notation::decimal(member.revision + 1),
                                },
                            ),
                        ),
                    )
                },
            }
        }
    }
}

/// An addition does what its effect says, in one transaction.
#[verifier::rlimit(40)]
pub proof fn law_addition_has_its_effect(
    store: Store,
    addition: Addition<Seq<char>>,
    started: int,
)
    requires
        store.valid(),
        addition.stage is Begin,
    ensures
        store.add(addition, started) == store.addition_effect(addition, started),
{
    reveal_with_fuel(store::run_addition, 8);
    let reserved = store.with_command(
        addition.key(),
        CommandRow {
            operation: membership::ADD_MEMBER@,
            organization_id: addition.organization_id,
            subject: addition.subject,
            membership_id: None,
            result_revision: None,
            changed: None,
        },
    );
    assert(reserved.memberships == store.memberships);
    assert(reserved.organizations == store.organizations);
    assert(reserved.has_membership(addition.generated_membership_id) == store.has_membership(
        addition.generated_membership_id,
    ));
    assert(store.add(addition, started).0 == store.addition_effect(addition, started).0);
}

/// A removal does what its effect says, in one transaction.
#[verifier::rlimit(40)]
pub proof fn law_removal_has_its_effect(
    store: Store,
    removal: Removal<Seq<char>>,
    started: int,
)
    requires
        store.valid(),
        removal.stage is Begin,
    ensures
        store.remove(removal, started) == store.removal_effect(removal),
{
    reveal_with_fuel(store::run_removal, 8);
    let reserved = store.with_command(
        removal.key(),
        CommandRow {
            operation: membership::REMOVE_MEMBER@,
            organization_id: removal.organization_id,
            subject: removal.subject,
            membership_id: None,
            result_revision: None,
            changed: None,
        },
    );
    assert(reserved.memberships == store.memberships);
    assert(reserved.organizations == store.organizations);
    assert(store.remove(removal, started).0 == store.removal_effect(removal).0);
}

/// One more membership takes nothing away from the others.
proof fn lemma_more_memberships(store: Store, longer: Store)
    requires
        store.memberships.len() < longer.memberships.len(),
        longer.memberships.drop_last() == store.memberships,
    ensures
        forall|id: Seq<char>| #[trigger] store.has_membership(id) ==> longer.has_membership(id),
        forall|id: Seq<char>| #[trigger] store.has_owner(id) ==> longer.has_owner(id),
        forall|i: int|
            0 <= i < store.memberships.len() ==> #[trigger] longer.memberships[i]
                == store.memberships[i],
{
    assert forall|i: int| 0 <= i < store.memberships.len() implies
        #[trigger] longer.memberships[i] == store.memberships[i] by {
        assert(longer.memberships.drop_last()[i] == store.memberships[i]);
    }
    assert forall|id: Seq<char>| #[trigger] store.has_membership(id) implies
        longer.has_membership(id) by {
        let i = choose|i: int|
            0 <= i < store.memberships.len() && (#[trigger] store.memberships[i]).membership_id
                == id;
        assert(longer.memberships[i] == store.memberships[i]);
    }
    assert forall|id: Seq<char>| #[trigger] store.has_owner(id) implies longer.has_owner(id) by {
        let i = choose|i: int|
            0 <= i < store.memberships.len() && (#[trigger] store.memberships[i]).organization_id
                == id && store.memberships[i].is_owner && store.memberships[i].active;
        assert(longer.memberships[i] == store.memberships[i]);
    }
}

proof fn lemma_with_creation_is_valid(
    store: Store,
    creation: Creation<Seq<char>>,
    started: int,
)
    requires
        store.valid(),
        !store.organizations.contains_key(creation.organization_id),
        !store.has_membership(creation.owner_membership_id),
        !store.slug_taken(creation.slug),
    ensures
        store.with_creation(creation, started).valid(),
{
    let after = store.with_creation(creation, started);
    let last = store.memberships.len() as int;
    assert(after.memberships.drop_last() == store.memberships);
    lemma_more_memberships(store, after);
    assert(after.memberships[last].membership_id == creation.owner_membership_id);
    assert(after.has_membership(creation.owner_membership_id));
    assert(after.has_owner(creation.organization_id));
    assert(after.only_latest_active()) by {
        assert forall|i: int, j: int|
            #![trigger after.memberships[i], after.memberships[j]]
            0 <= i < j < after.memberships.len() && after.memberships[i].is_of(
                after.memberships[j].organization_id,
                after.memberships[j].subject,
            ) implies !after.memberships[i].active by {
            assert(store.organizations.contains_key(store.memberships[i].organization_id));
        }
    }
    assert(after.memberships_are_distinct()) by {
        assert forall|i: int, j: int|
            #![trigger after.memberships[i], after.memberships[j]]
            0 <= i < j < after.memberships.len() implies after.memberships[i].membership_id
            != after.memberships[j].membership_id by {
            if j == last {
                assert(store.memberships[i].membership_id != creation.owner_membership_id);
            }
        }
    }
    assert(after.active_slugs_are_distinct()) by {
        assert forall|a: Seq<char>, b: Seq<char>|
            #![trigger after.organizations.contains_key(a), after.organizations.contains_key(b)]
            after.is_active(a) && after.is_active(b) && after.organizations[a].slug
                == after.organizations[b].slug implies a == b by {
            if a != creation.organization_id {
                assert(store.organizations.contains_key(a));
            }
            if b != creation.organization_id {
                assert(store.organizations.contains_key(b));
            }
        }
    }
    assert(after.creations_keep_references()) by {
        assert forall|key: ReceiptKey| #[trigger] after.creations.contains_key(key) implies
            after.organizations.contains_key(after.creations[key].organization_id)
            && after.has_membership(after.creations[key].owner_membership_id) by {
            if key != creation.key() {
                assert(store.creations.contains_key(key));
            }
        }
    }
    assert(after.active_organizations_have_owners()) by {
        assert forall|id: Seq<char>| #[trigger] after.organizations.contains_key(id)
            && after.organizations[id].active implies after.has_owner(id) by {
            if id != creation.organization_id {
                assert(store.organizations.contains_key(id));
            }
        }
    }
}

/// Whatever a creation is answered, the tables stay valid.
pub proof fn law_creation_keeps_the_tables_valid(
    store: Store,
    creation: Creation<Seq<char>>,
    started: int,
)
    requires
        store.valid(),
        creation.stage is Begin,
    ensures
        store.create(creation, started).0.valid(),
{
    law_creation_has_its_effect(store, creation, started);
    if !store.organizations.contains_key(creation.organization_id) && !store.slug_taken(
        creation.slug,
    ) && !store.has_membership(creation.owner_membership_id) {
        lemma_with_creation_is_valid(store, creation, started);
    }
}

proof fn lemma_with_member_is_valid(store: Store, membership: MembershipRecord)
    requires
        store.valid(),
        store.organizations.contains_key(membership.organization_id),
        !store.has_membership(membership.membership_id),
        store.member(membership.organization_id, membership.subject) is None,
    ensures
        store.with_membership(membership).valid(),
{
    let after = store.with_membership(membership);
    let last = store.memberships.len() as int;
    assert(after.memberships.drop_last() == store.memberships);
    lemma_more_memberships(store, after);
    assert(after.only_latest_active()) by {
        assert forall|i: int, j: int|
            #![trigger after.memberships[i], after.memberships[j]]
            0 <= i < j < after.memberships.len() && after.memberships[i].is_of(
                after.memberships[j].organization_id,
                after.memberships[j].subject,
            ) implies !after.memberships[i].active by {
            if j == last {
                assert(!store::is_member_at(
                    store.memberships,
                    i,
                    membership.organization_id,
                    membership.subject,
                ));
            }
        }
    }
    assert(after.memberships_are_distinct()) by {
        assert forall|i: int, j: int|
            #![trigger after.memberships[i], after.memberships[j]]
            0 <= i < j < after.memberships.len() implies after.memberships[i].membership_id
            != after.memberships[j].membership_id by {
            if j == last {
                assert(store.memberships[i].membership_id != membership.membership_id);
            }
        }
    }
    assert(after.active_slugs_are_distinct());
    assert(after.creations_keep_references()) by {
        assert forall|key: ReceiptKey| #[trigger] after.creations.contains_key(key) implies
            after.organizations.contains_key(after.creations[key].organization_id)
            && after.has_membership(after.creations[key].owner_membership_id) by {
            assert(store.creations.contains_key(key));
        }
    }
    assert(after.active_organizations_have_owners()) by {
        assert forall|id: Seq<char>| #[trigger] after.organizations.contains_key(id)
            && after.organizations[id].active implies after.has_owner(id) by {
            assert(store.organizations.contains_key(id));
        }
    }
}

proof fn lemma_with_command_is_valid(store: Store, key: ReceiptKey, row: CommandRow<Seq<char>>)
    requires
        store.valid(),
        row.membership_id is Some,
        row.result_revision is Some,
        row.changed is Some,
    ensures
        store.with_command(key, row).valid(),
{
    let after = store.with_command(key, row);
    assert(after.commands_are_complete()) by {
        assert forall|other: ReceiptKey| #[trigger] after.commands.contains_key(other) implies
            after.commands[other].membership_id is Some && after.commands[other].result_revision
            is Some && after.commands[other].changed is Some by {
            if other != key {
                assert(store.commands.contains_key(other));
            }
        }
    }
    assert(after.active_slugs_are_distinct());
    assert(after.creations_keep_references()) by {
        assert forall|other: ReceiptKey| #[trigger] after.creations.contains_key(other) implies
            after.organizations.contains_key(after.creations[other].organization_id)
            && after.has_membership(after.creations[other].owner_membership_id) by {
            assert(store.creations.contains_key(other));
            assert(store.has_membership(store.creations[other].owner_membership_id));
            lemma_same_memberships(store, after);
        }
    }
    assert(after.active_organizations_have_owners()) by {
        lemma_same_memberships(store, after);
        assert forall|id: Seq<char>| #[trigger] after.organizations.contains_key(id)
            && after.organizations[id].active implies after.has_owner(id) by {
            assert(store.organizations.contains_key(id));
        }
    }
}

proof fn lemma_same_memberships(store: Store, other: Store)
    requires
        store.memberships == other.memberships,
    ensures
        forall|id: Seq<char>| #[trigger] store.has_membership(id) ==> other.has_membership(id),
        forall|id: Seq<char>| #[trigger] store.has_owner(id) ==> other.has_owner(id),
{
}

/// Whatever an addition is answered, the tables stay valid.
pub proof fn law_addition_keeps_the_tables_valid(
    store: Store,
    addition: Addition<Seq<char>>,
    started: int,
)
    requires
        store.valid(),
        addition.stage is Begin,
    ensures
        store.add(addition, started).0.valid(),
{
    law_addition_has_its_effect(store, addition, started);
    if !store.commands.contains_key(addition.key()) && store.is_active(addition.organization_id) {
        match store.member(addition.organization_id, addition.subject) {
            Some(member) => {
                lemma_with_command_is_valid(
                    store,
                    addition.key(),
                    addition.receipt(member.membership_id, member.revision, false),
                );
            },
            None if !store.has_membership(addition.generated_membership_id) => {
                lemma_with_member_is_valid(store, addition.membership(started));
                lemma_with_command_is_valid(
                    store.with_membership(addition.membership(started)),
                    addition.key(),
                    addition.receipt(addition.generated_membership_id, 1, true),
                );
            },
            None => {},
        }
    }
}

/// The active membership is the only one that is active.
pub proof fn lemma_member_is_found(
    store: Store,
    i: int,
    organization_id: Seq<char>,
    subject: Seq<char>,
)
    requires
        store.only_latest_active(),
        store::is_member_at(store.memberships, i, organization_id, subject),
    ensures
        store.member(organization_id, subject) == Some(store.memberships[i]),
{
    let found = choose|j: int|
        store::is_member_at(store.memberships, j, organization_id, subject);
    if i < found {
        assert(store.memberships[i].is_of(
            store.memberships[found].organization_id,
            store.memberships[found].subject,
        ));
    }
    if found < i {
        assert(store.memberships[found].is_of(
            store.memberships[i].organization_id,
            store.memberships[i].subject,
        ));
    }
}

proof fn lemma_without_member_is_valid(
    store: Store,
    organization_id: Seq<char>,
    subject: Seq<char>,
    member: MembershipRecord,
)
    requires
        store.valid(),
        store.member(organization_id, subject) == Some(member),
        !member.is_owner,
    ensures
        store.without_member(organization_id, member).valid(),
{
    let after = store.without_member(organization_id, member);
    let at = choose|i: int| store::is_member_at(store.memberships, i, organization_id, subject);
    assert(store.memberships[at] == member);
    assert forall|i: int| 0 <= i < store.memberships.len() && i != at implies
        #[trigger] after.memberships[i] == store.memberships[i] by {
        assert(store.memberships[i].membership_id != store.memberships[at].membership_id);
    }
    assert forall|id: Seq<char>| #[trigger] store.has_membership(id) implies
        after.has_membership(id) by {
        let i = choose|i: int|
            0 <= i < store.memberships.len() && (#[trigger] store.memberships[i]).membership_id
                == id;
        assert(after.memberships[i].membership_id == id);
    }
    assert forall|id: Seq<char>| #[trigger] store.has_owner(id) implies after.has_owner(id) by {
        let i = choose|i: int|
            0 <= i < store.memberships.len() && (#[trigger] store.memberships[i]).organization_id
                == id && store.memberships[i].is_owner && store.memberships[i].active;
        assert(after.memberships[i] == store.memberships[i]);
    }
    assert(after.only_latest_active()) by {
        assert forall|i: int, j: int|
            #![trigger after.memberships[i], after.memberships[j]]
            0 <= i < j < after.memberships.len() && after.memberships[i].is_of(
                after.memberships[j].organization_id,
                after.memberships[j].subject,
            ) implies !after.memberships[i].active by {
            assert(store.memberships[i].is_of(
                store.memberships[j].organization_id,
                store.memberships[j].subject,
            ));
        }
    }
    assert(after.memberships_are_distinct()) by {
        assert forall|i: int, j: int|
            #![trigger after.memberships[i], after.memberships[j]]
            0 <= i < j < after.memberships.len() implies after.memberships[i].membership_id
            != after.memberships[j].membership_id by {
            assert(store.memberships[i].membership_id != store.memberships[j].membership_id);
        }
    }
    assert(after.memberships_have_organizations()) by {
        assert forall|i: int| 0 <= i < after.memberships.len() implies
            after.organizations.contains_key((#[trigger] after.memberships[i]).organization_id) by {
            assert(store.organizations.contains_key(store.memberships[i].organization_id));
        }
    }
    assert(after.active_slugs_are_distinct());
    assert(after.creations_keep_references()) by {
        assert forall|key: ReceiptKey| #[trigger] after.creations.contains_key(key) implies
            after.organizations.contains_key(after.creations[key].organization_id)
            && after.has_membership(after.creations[key].owner_membership_id) by {
            assert(store.creations.contains_key(key));
        }
    }
    assert(after.active_organizations_have_owners()) by {
        assert forall|id: Seq<char>| #[trigger] after.organizations.contains_key(id)
            && after.organizations[id].active implies after.has_owner(id) by {
            assert(store.organizations.contains_key(id));
        }
    }
}

/// Whatever a removal is answered, the tables stay valid: in particular every
/// active Organization keeps an active owner.
pub proof fn law_removal_keeps_the_tables_valid(
    store: Store,
    removal: Removal<Seq<char>>,
    started: int,
)
    requires
        store.valid(),
        removal.stage is Begin,
    ensures
        store.remove(removal, started).0.valid(),
{
    law_removal_has_its_effect(store, removal, started);
    if !store.commands.contains_key(removal.key()) && store.is_active(removal.organization_id) {
        match store.member(removal.organization_id, removal.subject) {
            Some(member) => {
                if !member.is_owner && member.revision < i64::MAX {
                    lemma_without_member_is_valid(
                        store,
                        removal.organization_id,
                        removal.subject,
                        member,
                    );
                    lemma_with_command_is_valid(
                        store.without_member(removal.organization_id, member),
                        removal.key(),
                        removal.receipt(member.membership_id, (member.revision + 1) as i64),
                    );
                }
            },
            None => {},
        }
    }
}

/// Archiving keeps the tables valid.
pub proof fn law_archiving_keeps_the_tables_valid(
    store: Store,
    organization_id: Seq<char>,
    revision: i64,
)
    requires
        store.valid(),
    ensures
        store.archived(organization_id, revision).valid(),
{
    let after = store.archived(organization_id, revision);
    lemma_same_memberships(store, after);
    assert(after.active_slugs_are_distinct()) by {
        assert forall|a: Seq<char>, b: Seq<char>|
            #![trigger after.organizations.contains_key(a), after.organizations.contains_key(b)]
            after.is_active(a) && after.is_active(b) && after.organizations[a].slug
                == after.organizations[b].slug implies a == b by {
            assert(store.organizations.contains_key(a));
            assert(store.organizations.contains_key(b));
        }
    }
    assert(after.creations_keep_references()) by {
        assert forall|key: ReceiptKey| #[trigger] after.creations.contains_key(key) implies
            after.organizations.contains_key(after.creations[key].organization_id)
            && after.has_membership(after.creations[key].owner_membership_id) by {
            assert(store.creations.contains_key(key));
        }
    }
    assert(after.active_organizations_have_owners()) by {
        assert forall|id: Seq<char>| #[trigger] after.organizations.contains_key(id)
            && after.organizations[id].active implies after.has_owner(id) by {
            assert(store.organizations.contains_key(id));
        }
    }
}

} // verus!
