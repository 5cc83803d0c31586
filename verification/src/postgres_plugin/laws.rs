//! What holds of the Plugin's operations together, over the model of its
//! tables.

use vstd::prelude::*;

use crate::contracts::{
    AddMemberError, AddMemberResponse, CheckMembershipError, CheckMembershipResponse,
    CreateOrganizationError, CreateOrganizationResponse, GetOrganizationResponse,
    RemoveMemberError, RemoveMemberResponse,
};
use crate::notation;
use crate::postgres_plugin;
use crate::postgres_plugin::creation;
use crate::postgres_plugin::creation::{Creation, CreationOutcomeView};
use crate::postgres_plugin::effects;
use crate::postgres_plugin::membership;
use crate::postgres_plugin::membership::{
    Addition, AdditionOutcomeView, Removal, RemovalOutcomeView,
};
use crate::postgres_plugin::queries;
use crate::postgres_plugin::queries::{DirectoryOutcomeView, StandingOutcomeView};
use crate::postgres_plugin::statements::{Reply, StandingRow, Statement};
use crate::postgres_plugin::store;
use crate::postgres_plugin::store::{MembershipRecord, Store};
use crate::transaction::Progress;

verus! {

impl Store {
    /// Whether a membership check is answered with `outcome`, whichever of the
    /// rows it finds that it may find.
    pub open spec fn standing_is(
        self,
        organization_id: Seq<char>,
        subject: Seq<char>,
        outcome: StandingOutcomeView,
    ) -> bool {
        forall|row: StandingRow| #[trigger]
            self.may_find(organization_id, subject, row) ==> queries::standing_outcome(
                Reply::Standing(row),
            ) == outcome
    }

    /// What a directory read is answered.
    pub open spec fn directory_entry(self, organization_id: Seq<char>) -> DirectoryOutcomeView {
        queries::directory_outcome(
            organization_id,
            Reply::Directory(self.directory_row(organization_id)),
        )
    }
}

/// Whatever the database replies, a creation succeeds only on a confirmed
/// commit, and a commit is its last request.
pub proof fn law_creation_succeeds_only_on_a_commit(
    creation: Creation<Seq<char>>,
    reply: Reply<Seq<char>>,
)
    ensures
        creation.advanced(reply) matches Progress::Finish(Ok(Ok(_)))
            ==> creation.requested() is Commit && reply is Done,
        creation.requested() is Commit ==> creation.advanced(reply) is Finish,
{
}

/// Whatever the database replies, an addition succeeds only on a confirmed
/// commit, and a commit is its last request.
pub proof fn law_addition_succeeds_only_on_a_commit(
    addition: Addition<Seq<char>>,
    reply: Reply<Seq<char>>,
)
    ensures
        addition.advanced(reply) matches Progress::Finish(Ok(Ok(_)))
            ==> addition.requested() is Commit && reply is Done,
        addition.requested() is Commit ==> addition.advanced(reply) is Finish,
{
}

/// Whatever the database replies, a removal succeeds only on a confirmed
/// commit, and a commit is its last request.
pub proof fn law_removal_succeeds_only_on_a_commit(
    removal: Removal<Seq<char>>,
    reply: Reply<Seq<char>>,
)
    ensures
        removal.advanced(reply) matches Progress::Finish(Ok(Ok(_)))
            ==> removal.requested() is Commit && reply is Done,
        removal.requested() is Commit ==> removal.advanced(reply) is Finish,
{
}

/// A request that the database fails ends the transaction in a failure that
/// names the request. The one exception is a broken slug constraint where the
/// Organization is inserted, which is a Domain Error.
pub proof fn law_failed_request_is_a_failure(
    creation: Creation<Seq<char>>,
    addition: Addition<Seq<char>>,
    removal: Removal<Seq<char>>,
    constraint: Option<Seq<char>>,
)
    ensures
        creation.advanced(Reply::Failed { constraint }) == Progress::<
            Creation<Seq<char>>,
            CreationOutcomeView,
        >::Finish(
            if creation.stage is InsertOrganization && constraint == Some(
                creation::ACTIVE_SLUG_CONSTRAINT@,
            ) {
                Ok(Err(CreateOrganizationError::SlugConflict))
            } else {
                Err(postgres_plugin::database_failure(creation.operation()))
            },
        ),
        addition.advanced(Reply::Failed { constraint }) == Progress::<
            Addition<Seq<char>>,
            AdditionOutcomeView,
        >::Finish(Err(postgres_plugin::database_failure(addition.operation()))),
        removal.advanced(Reply::Failed { constraint }) == Progress::<
            Removal<Seq<char>>,
            RemovalOutcomeView,
        >::Finish(Err(postgres_plugin::database_failure(removal.operation()))),
{
}

/// A directory entry tells nothing of memberships and receipts: tables with
/// the same Organizations have the same directory.
pub proof fn law_directory_tells_only_of_organizations(
    store: Store,
    other: Store,
    organization_id: Seq<char>,
)
    requires
        store.organizations == other.organizations,
    ensures
        store.directory_entry(organization_id) == other.directory_entry(organization_id),
{
}

/// Whatever the database replies, each reply brings a transaction closer to
/// its end.
pub proof fn law_transactions_end(
    creation: Creation<Seq<char>>,
    addition: Addition<Seq<char>>,
    removal: Removal<Seq<char>>,
    reply: Reply<Seq<char>>,
)
    ensures
        creation.advanced(reply) matches Progress::Continue(next) ==> next.remaining()
            < creation.remaining(),
        addition.advanced(reply) matches Progress::Continue(next) ==> next.remaining()
            < addition.remaining(),
        removal.advanced(reply) matches Progress::Continue(next) ==> next.remaining()
            < removal.remaining(),
{
}

/// A creation creates exactly if its caller has not used the key and no active
/// Organization has the slug. The same key of another caller is no obstacle.
pub proof fn law_creation_creates_where_key_and_slug_are_free(
    store: Store,
    creation: Creation<Seq<char>>,
    started: int,
)
    requires
        store.valid(),
        creation.stage is Begin,
        store.can_create(creation),
    ensures
        (store.create(creation, started).1 matches Ok(Ok(answer)) && answer.created) <==> (
        !store.creations.contains_key(creation.key()) && !store.slug_taken(creation.slug)),
{
    effects::law_creation_has_its_effect(store, creation, started);
}

/// After a creation the Organization is in the directory under its name and
/// slug at revision 1, its subject is an active owner, and the receipt holds
/// the identifiers that were answered.
pub proof fn law_creation_is_observed(
    store: Store,
    creation: Creation<Seq<char>>,
    started: int,
)
    requires
        store.valid(),
        creation.stage is Begin,
        store.create(creation, started).1 matches Ok(Ok(answer)) && answer.created,
    ensures
        ({
            let (after, outcome) = store.create(creation, started);
            let answer = outcome->Ok_0->Ok_0;
            &&& answer.organization_id == creation.organization_id
            &&& answer.owner_membership_id == creation.owner_membership_id
            &&& after.directory_entry(answer.organization_id) == DirectoryOutcomeView::Ok(
                Ok(
                    GetOrganizationResponse {
                        active: true,
                        name: creation.name,
                        organization_id: answer.organization_id,
                        revision: notation::decimal(1),
                        slug: creation.slug,
                    },
                ),
            )
            &&& after.standing_is(
                answer.organization_id,
                creation.owner_subject,
                StandingOutcomeView::Ok(Ok(CheckMembershipResponse { active: true, owner: true })),
            )
            &&& after.creations.contains_key(creation.key())
            &&& after.creations[creation.key()] == creation.receipt()
        }),
{
    effects::law_creation_has_its_effect(store, creation, started);
    let after = store.create(creation, started).0;
    let last = store.memberships.len() as int;
    let owner = after.memberships[last];
    assert forall|i: int| 0 <= i < last implies (#[trigger] after.memberships[i]).organization_id
        != creation.organization_id by {
        assert(after.memberships[i] == store.memberships[i]);
        assert(store.organizations.contains_key(store.memberships[i].organization_id));
    }
    assert(after.memberships.contains(owner));
    lemma_standing_of_newest(after, creation.organization_id, creation.owner_subject, owner);
}

/// A membership check finds a row.
pub proof fn law_check_finds_a_row(store: Store, organization_id: Seq<char>, subject: Seq<char>)
    ensures
        exists|row: StandingRow| store.may_find(organization_id, subject, row),
        forall|started: int|
            store.may_find(
                organization_id,
                subject,
                (#[trigger] store.executed(
                    Statement::CheckMembership { organization_id, subject },
                    started,
                )).1->Standing_0,
            ),
{
    let exists = Some(store.is_active(organization_id));
    if store.has_memberships_of(organization_id, subject) {
        lemma_newest_exists(store.memberships, organization_id, subject);
        let found = choose|found: MembershipRecord|
            store::is_newest(store.memberships, organization_id, subject, found);
        let row = StandingRow {
            organization_exists: exists,
            active: Some(found.active),
            owner: Some(found.is_owner && found.active),
        };
        assert(store.may_find(organization_id, subject, row));
    } else {
        let row = StandingRow {
            organization_exists: exists,
            active: Some(false),
            owner: Some(false),
        };
        assert(store.may_find(organization_id, subject, row));
    }
}

proof fn lemma_newest_exists(
    memberships: Seq<MembershipRecord>,
    organization_id: Seq<char>,
    subject: Seq<char>,
)
    requires
        exists|i: int|
            0 <= i < memberships.len() && (#[trigger] memberships[i]).is_of(
                organization_id,
                subject,
            ),
    ensures
        exists|found: MembershipRecord|
            store::is_newest(memberships, organization_id, subject, found),
    decreases memberships.len(),
{
    let shorter = memberships.drop_last();
    let last = memberships.last();
    assert(memberships[memberships.len() - 1] == last);
    assert forall|i: int| 0 <= i < shorter.len() implies #[trigger] shorter[i]
        == memberships[i] by {}
    if exists|i: int|
        0 <= i < shorter.len() && (#[trigger] shorter[i]).is_of(organization_id, subject) {
        lemma_newest_exists(shorter, organization_id, subject);
        let found = choose|found: MembershipRecord|
            store::is_newest(shorter, organization_id, subject, found);
        let at = choose|i: int| 0 <= i < shorter.len() && shorter[i] == found;
        assert(memberships[at] == found);
        assert forall|i: int|
            0 <= i < memberships.len() && i < shorter.len() && (#[trigger] memberships[i]).is_of(
                organization_id,
                subject,
            ) implies memberships[i].created_at <= found.created_at by {
            assert(shorter[i] == memberships[i]);
        }
        if last.is_of(organization_id, subject) && last.created_at > found.created_at {
            assert(store::is_newest(memberships, organization_id, subject, last));
        } else {
            assert(store::is_newest(memberships, organization_id, subject, found));
        }
    } else {
        assert forall|i: int|
            0 <= i < memberships.len() && (#[trigger] memberships[i]).is_of(
                organization_id,
                subject,
            ) implies memberships[i] == last by {
            if i < shorter.len() {
                assert(shorter[i] == memberships[i]);
            }
        }
        assert(store::is_newest(memberships, organization_id, subject, last));
    }
}

/// Where one membership of a subject is newer than all others, a membership
/// check goes by that one.
pub proof fn lemma_standing_of_newest(
    store: Store,
    organization_id: Seq<char>,
    subject: Seq<char>,
    newest: MembershipRecord,
)
    requires
        store.is_active(organization_id),
        store.memberships.contains(newest),
        newest.is_of(organization_id, subject),
        store.is_newer_than_others(newest),
    ensures
        store.standing_is(
            organization_id,
            subject,
            StandingOutcomeView::Ok(
                Ok(
                    CheckMembershipResponse {
                        active: newest.active,
                        owner: newest.is_owner && newest.active,
                    },
                ),
            ),
        ),
{
    let at = choose|i: int| 0 <= i < store.memberships.len() && store.memberships[i] == newest;
    assert(store.memberships[at].is_of(organization_id, subject));
    assert forall|found: MembershipRecord| #[trigger]
        store::is_newest(store.memberships, organization_id, subject, found) implies found
        == newest by {
        let i = choose|i: int|
            0 <= i < store.memberships.len() && store.memberships[i] == found;
        assert(store.memberships[i].is_of(organization_id, subject));
    }
}

/// Where another membership of a member is newer, a membership check does not
/// see that it is one.
proof fn lemma_standing_of_older(
    store: Store,
    organization_id: Seq<char>,
    subject: Seq<char>,
    i: int,
)
    requires
        store.is_active(organization_id),
        store.only_latest_active(),
        store::is_member_at(store.memberships, i, organization_id, subject),
        store.is_older_than_another(store.memberships[i]),
    ensures
        store.standing_is(
            organization_id,
            subject,
            StandingOutcomeView::Ok(Ok(CheckMembershipResponse { active: false, owner: false })),
        ),
{
    let member = store.memberships[i];
    assert(store.has_memberships_of(organization_id, subject));
    assert forall|found: MembershipRecord| #[trigger]
        store::is_newest(store.memberships, organization_id, subject, found) implies !found.active
        by {
        let newer = choose|j: int|
            0 <= j < store.memberships.len() && (#[trigger] store.memberships[j]).is_of(
                organization_id,
                subject,
            ) && store.memberships[j].created_at > member.created_at;
        assert(store.memberships[newer].created_at <= found.created_at);
        let at = choose|j: int| 0 <= j < store.memberships.len() && store.memberships[j] == found;
        if store.memberships[at].active {
            effects::lemma_member_is_found(store, i, organization_id, subject);
            effects::lemma_member_is_found(store, at, organization_id, subject);
        }
    }
}

/// Where a subject is no member, a membership check says so.
pub proof fn lemma_standing_without_member(
    store: Store,
    organization_id: Seq<char>,
    subject: Seq<char>,
)
    requires
        store.is_active(organization_id),
        store.member(organization_id, subject) is None,
    ensures
        store.standing_is(
            organization_id,
            subject,
            StandingOutcomeView::Ok(Ok(CheckMembershipResponse { active: false, owner: false })),
        ),
{
    assert forall|found: MembershipRecord| #[trigger]
        store::is_newest(store.memberships, organization_id, subject, found) implies !found.active
        by {
        let i = choose|i: int|
            0 <= i < store.memberships.len() && store.memberships[i] == found;
        assert(!store::is_member_at(store.memberships, i, organization_id, subject));
    }
}

/// A check finds the same rows where a subject has the same memberships.
proof fn lemma_same_rows_are_found(
    left: Store,
    right: Store,
    organization_id: Seq<char>,
    subject: Seq<char>,
)
    requires
        left.is_active(organization_id) == right.is_active(organization_id),
        forall|membership: MembershipRecord|
            membership.is_of(organization_id, subject) ==> #[trigger] left.memberships.contains(
                membership,
            ) == right.memberships.contains(membership),
    ensures
        forall|row: StandingRow| #[trigger]
            left.may_find(organization_id, subject, row) == right.may_find(
                organization_id,
                subject,
                row,
            ),
{
    assert forall|found: MembershipRecord|
        #![trigger store::is_newest(left.memberships, organization_id, subject, found)]
        #![trigger store::is_newest(right.memberships, organization_id, subject, found)]
        store::is_newest(left.memberships, organization_id, subject, found) == store::is_newest(
            right.memberships,
            organization_id,
            subject,
            found,
        ) by {
        if store::is_newest(left.memberships, organization_id, subject, found) {
            lemma_newest_where_contained(left, right, organization_id, subject, found);
        }
        if store::is_newest(right.memberships, organization_id, subject, found) {
            lemma_newest_where_contained(right, left, organization_id, subject, found);
        }
    }
    if left.has_memberships_of(organization_id, subject) {
        let i = choose|i: int|
            0 <= i < left.memberships.len() && (#[trigger] left.memberships[i]).is_of(
                organization_id,
                subject,
            );
        assert(left.memberships.contains(left.memberships[i]));
        assert(right.memberships.contains(left.memberships[i]));
    }
    if right.has_memberships_of(organization_id, subject) {
        let i = choose|i: int|
            0 <= i < right.memberships.len() && (#[trigger] right.memberships[i]).is_of(
                organization_id,
                subject,
            );
        assert(right.memberships.contains(right.memberships[i]));
        assert(left.memberships.contains(right.memberships[i]));
    }
}

proof fn lemma_newest_where_contained(
    left: Store,
    right: Store,
    organization_id: Seq<char>,
    subject: Seq<char>,
    found: MembershipRecord,
)
    requires
        forall|membership: MembershipRecord|
            membership.is_of(organization_id, subject) ==> #[trigger] left.memberships.contains(
                membership,
            ) == right.memberships.contains(membership),
        store::is_newest(left.memberships, organization_id, subject, found),
    ensures
        store::is_newest(right.memberships, organization_id, subject, found),
{
    assert(left.memberships.contains(found));
    assert forall|i: int|
        0 <= i < right.memberships.len() && (#[trigger] right.memberships[i]).is_of(
            organization_id,
            subject,
        ) implies right.memberships[i].created_at <= found.created_at by {
        let other = right.memberships[i];
        assert(right.memberships.contains(other));
        assert(left.memberships.contains(other));
        let j = choose|j: int| 0 <= j < left.memberships.len() && left.memberships[j] == other;
        assert(left.memberships[j].is_of(organization_id, subject));
    }
}

/// A creation under a key whose receipt has the same intent answers the
/// identifiers in the receipt with `created` false, and changes nothing.
pub proof fn law_creation_is_replayed(
    store: Store,
    creation: Creation<Seq<char>>,
    started: int,
)
    requires
        store.valid(),
        creation.stage is Begin,
        store.creations.contains_key(creation.key()),
        store.creations[creation.key()].name == creation.name,
        store.creations[creation.key()].slug == creation.slug,
        store.creations[creation.key()].owner_subject == creation.owner_subject,
    ensures
        store.create(creation, started) == (
            store,
            CreationOutcomeView::Ok(
                Ok(
                    CreateOrganizationResponse {
                        created: false,
                        organization_id: store.creations[creation.key()].organization_id,
                        owner_membership_id: store.creations[creation.key()].owner_membership_id,
                    },
                ),
            ),
        ),
{
    effects::law_creation_has_its_effect(store, creation, started);
}

/// A creation under a key whose receipt has another intent is an idempotency
/// conflict, and changes nothing.
pub proof fn law_creation_key_is_for_one_intent(
    store: Store,
    creation: Creation<Seq<char>>,
    started: int,
)
    requires
        store.valid(),
        creation.stage is Begin,
        store.creations.contains_key(creation.key()),
        store.creations[creation.key()].name != creation.name
            || store.creations[creation.key()].slug != creation.slug
            || store.creations[creation.key()].owner_subject != creation.owner_subject,
    ensures
        store.create(creation, started) == (
            store,
            CreationOutcomeView::Ok(Err(CreateOrganizationError::IdempotencyConflict)),
        ),
{
    effects::law_creation_has_its_effect(store, creation, started);
}

/// A slug that an active Organization has is a slug conflict under a key that
/// is free, whatever the name and the owner: never a replay.
pub proof fn law_taken_slug_is_a_conflict(
    store: Store,
    creation: Creation<Seq<char>>,
    started: int,
)
    requires
        store.valid(),
        creation.stage is Begin,
        !store.organizations.contains_key(creation.organization_id),
        !store.creations.contains_key(creation.key()),
        store.slug_taken(creation.slug),
    ensures
        store.create(creation, started) == (
            store,
            CreationOutcomeView::Ok(Err(CreateOrganizationError::SlugConflict)),
        ),
{
    effects::law_creation_has_its_effect(store, creation, started);
}

/// Callers do not share keys: a creation of one caller takes nothing from a
/// creation of another under the same key, with another slug.
pub proof fn law_callers_do_not_share_creation_keys(
    store: Store,
    first: Creation<Seq<char>>,
    first_started: int,
    second: Creation<Seq<char>>,
    second_started: int,
)
    requires
        store.valid(),
        first.stage is Begin,
        second.caller_instance != first.caller_instance,
        second.idempotency_key == first.idempotency_key,
        second.slug != first.slug,
        !store.creations.contains_key(second.key()),
        !store.slug_taken(second.slug),
        second.stage is Begin,
        store.create(first, first_started).0.can_create(second),
    ensures
        store.create(first, first_started).0.create(second, second_started).1
            == CreationOutcomeView::Ok(
            Ok(
                CreateOrganizationResponse {
                    created: true,
                    organization_id: second.organization_id,
                    owner_membership_id: second.owner_membership_id,
                },
            ),
        ),
{
    effects::law_creation_has_its_effect(store, first, first_started);
    effects::law_creation_keeps_the_tables_valid(store, first, first_started);
    let middle = store.create(first, first_started).0;
    effects::law_creation_has_its_effect(middle, second, second_started);
    if middle.slug_taken(second.slug) {
        let id = choose|id: Seq<char>| #[trigger]
            middle.organizations.contains_key(id) && middle.organizations[id].active
                && middle.organizations[id].slug == second.slug;
        assert(store.organizations.contains_key(id));
    }
}

/// Callers do not share keys: an addition of one caller takes nothing from an
/// addition of another under the same key, for another subject.
pub proof fn law_callers_do_not_share_addition_keys(
    store: Store,
    first: Addition<Seq<char>>,
    first_started: int,
    second: Addition<Seq<char>>,
    second_started: int,
)
    requires
        store.valid(),
        first.stage is Begin,
        second.caller_instance != first.caller_instance,
        second.idempotency_key == first.idempotency_key,
        second.subject != first.subject,
        !store.commands.contains_key(second.key()),
        store.is_active(second.organization_id),
        store.member(second.organization_id, second.subject) is None,
        second.stage is Begin,
        store.add(first, first_started).0.can_add(second),
    ensures
        store.add(first, first_started).0.add(second, second_started).1 == AdditionOutcomeView::Ok(
            Ok(
                AddMemberResponse {
                    created: true,
                    membership_id: second.generated_membership_id,
                    revision: notation::decimal(1),
                },
            ),
        ),
{
    effects::law_addition_has_its_effect(store, first, first_started);
    effects::law_addition_keeps_the_tables_valid(store, first, first_started);
    let middle = store.add(first, first_started).0;
    effects::law_addition_has_its_effect(middle, second, second_started);
    assert forall|i: int|
        !store::is_member_at(
            middle.memberships,
            i,
            second.organization_id,
            second.subject,
        ) by {
        if store::is_member_at(middle.memberships, i, second.organization_id, second.subject) {
            assert(store::is_member_at(
                store.memberships,
                i,
                second.organization_id,
                second.subject,
            ));
        }
    }
}

/// A creation that ends in a Domain Error or a failure changes nothing.
pub proof fn law_refused_creation_changes_nothing(
    store: Store,
    creation: Creation<Seq<char>>,
    started: int,
)
    requires
        store.valid(),
        creation.stage is Begin,
        !(store.create(creation, started).1 matches Ok(Ok(_))),
    ensures
        store.create(creation, started).0 == store,
{
    effects::law_creation_has_its_effect(store, creation, started);
}

/// An addition that ends in a Domain Error or a failure changes nothing.
pub proof fn law_refused_addition_changes_nothing(
    store: Store,
    addition: Addition<Seq<char>>,
    started: int,
)
    requires
        store.valid(),
        addition.stage is Begin,
        !(store.add(addition, started).1 matches Ok(Ok(_))),
    ensures
        store.add(addition, started).0 == store,
{
    effects::law_addition_has_its_effect(store, addition, started);
}

/// A removal that ends in a Domain Error or a failure changes nothing.
pub proof fn law_refused_removal_changes_nothing(
    store: Store,
    removal: Removal<Seq<char>>,
    started: int,
)
    requires
        store.valid(),
        removal.stage is Begin,
        !(store.remove(removal, started).1 matches Ok(Ok(_))),
    ensures
        store.remove(removal, started).0 == store,
{
    effects::law_removal_has_its_effect(store, removal, started);
}

/// On valid tables a creation fails exactly if it comes to use an identifier
/// that a row has already.
pub proof fn law_creation_fails_only_where_identifiers_repeat(
    store: Store,
    creation: Creation<Seq<char>>,
    started: int,
)
    requires
        store.valid(),
        creation.stage is Begin,
    ensures
        store.create(creation, started).1 is Err <==> !store.can_create(creation),
{
    effects::law_creation_has_its_effect(store, creation, started);
}

/// On valid tables an addition fails exactly if it comes to use an identifier
/// that a row has already.
pub proof fn law_addition_fails_only_where_identifiers_repeat(
    store: Store,
    addition: Addition<Seq<char>>,
    started: int,
)
    requires
        store.valid(),
        addition.stage is Begin,
    ensures
        store.add(addition, started).1 is Err <==> !store.can_add(addition),
{
    effects::law_addition_has_its_effect(store, addition, started);
}

/// On valid tables a removal fails exactly if the member who would be removed
/// has the largest revision there is.
pub proof fn law_removal_fails_only_at_the_largest_revision(
    store: Store,
    removal: Removal<Seq<char>>,
    started: int,
)
    requires
        store.valid(),
        removal.stage is Begin,
    ensures
        store.remove(removal, started).1 is Err <==> {
            &&& !store.commands.contains_key(removal.key())
            &&& store.is_active(removal.organization_id)
            &&& store.member(removal.organization_id, removal.subject) matches Some(member)
            &&& !member.is_owner
            &&& member.revision == i64::MAX
        },
{
    effects::law_removal_has_its_effect(store, removal, started);
}

/// After an addition the subject is an active member: the one it was, or a new
/// one who is no owner, at revision 1. A membership check sees it if the
/// subject's other memberships are all older, by the time at which their
/// transactions started, and does not see it if one of them is newer.
pub proof fn law_added_subject_is_a_member(
    store: Store,
    addition: Addition<Seq<char>>,
    started: int,
)
    requires
        store.valid(),
        addition.stage is Begin,
        store.can_add(addition),
        !store.commands.contains_key(addition.key()),
        store.is_active(addition.organization_id),
    ensures
        ({
            let (after, outcome) = store.add(addition, started);
            let member = store.member(addition.organization_id, addition.subject);
            let answer = outcome->Ok_0->Ok_0;
            &&& outcome matches Ok(Ok(_))
            &&& answer.created == (member is None)
            &&& answer.membership_id == (if member is None {
                addition.generated_membership_id
            } else {
                member->0.membership_id
            })
            &&& answer.revision == notation::decimal(
                if member is None {
                    1
                } else {
                    member->0.revision as int
                },
            )
            &&& after.is_newer_than_others(
                after.member(addition.organization_id, addition.subject)->0,
            ) ==> after.standing_is(
                addition.organization_id,
                addition.subject,
                StandingOutcomeView::Ok(
                    Ok(
                        CheckMembershipResponse {
                            active: true,
                            owner: member is Some && member->0.is_owner,
                        },
                    ),
                ),
            )
            &&& after.is_older_than_another(
                after.member(addition.organization_id, addition.subject)->0,
            ) ==> after.standing_is(
                addition.organization_id,
                addition.subject,
                StandingOutcomeView::Ok(
                    Ok(CheckMembershipResponse { active: false, owner: false }),
                ),
            )
            &&& after.member(addition.organization_id, addition.subject) == Some(
                if member is None {
                    addition.membership(started)
                } else {
                    member->0
                },
            )
        }),
{
    effects::law_addition_has_its_effect(store, addition, started);
    effects::law_addition_keeps_the_tables_valid(store, addition, started);
    let after = store.add(addition, started).0;
    let i = match store.member(addition.organization_id, addition.subject) {
        Some(member) => choose|i: int|
            store::is_member_at(
                store.memberships,
                i,
                addition.organization_id,
                addition.subject,
            ),
        None => store.memberships.len() as int,
    };
    assert(store::is_member_at(
        after.memberships,
        i,
        addition.organization_id,
        addition.subject,
    ));
    effects::lemma_member_is_found(after, i, addition.organization_id, addition.subject);
    if after.is_newer_than_others(after.memberships[i]) {
        lemma_standing_of_newest(
            after,
            addition.organization_id,
            addition.subject,
            after.memberships[i],
        );
    }
    if after.is_older_than_another(after.memberships[i]) {
        lemma_standing_of_older(after, addition.organization_id, addition.subject, i);
    }
}

/// Additions of one subject converge on one membership: a second one, by any
/// caller under any key that is free, answers the first one's membership and
/// revision with `created` false, and adds no membership.
pub proof fn law_additions_converge(
    store: Store,
    first: Addition<Seq<char>>,
    first_started: int,
    second: Addition<Seq<char>>,
    second_started: int,
)
    requires
        store.valid(),
        first.stage is Begin,
        store.add(first, first_started).1 matches Ok(Ok(_)),
        !store.commands.contains_key(first.key()),
        second.organization_id == first.organization_id,
        second.subject == first.subject,
        second.key() != first.key(),
        !store.commands.contains_key(second.key()),
        second.stage is Begin,
    ensures
        ({
            let (middle, answered) = store.add(first, first_started);
            let (after, outcome) = middle.add(second, second_started);
            &&& outcome == AdditionOutcomeView::Ok(
                Ok(
                    AddMemberResponse {
                        created: false,
                        membership_id: answered->Ok_0->Ok_0.membership_id,
                        revision: answered->Ok_0->Ok_0.revision,
                    },
                ),
            )
            &&& after.memberships == middle.memberships
        }),
{
    effects::law_addition_has_its_effect(store, first, first_started);
    effects::law_addition_keeps_the_tables_valid(store, first, first_started);
    let middle = store.add(first, first_started).0;
    effects::law_addition_has_its_effect(middle, second, second_started);
    if store.member(first.organization_id, first.subject) is None {
        effects::lemma_member_is_found(
            middle,
            middle.memberships.len() - 1,
            first.organization_id,
            first.subject,
        );
    }
}

/// An addition under a key whose receipt is of the same command answers the
/// membership and revision in the receipt with `created` false, and changes
/// nothing, whether or not the Organization is still active.
pub proof fn law_addition_is_replayed(
    store: Store,
    addition: Addition<Seq<char>>,
    started: int,
)
    requires
        store.valid(),
        addition.stage is Begin,
        store.commands.contains_key(addition.key()),
        store.commands[addition.key()].operation == membership::ADD_MEMBER@,
        store.commands[addition.key()].organization_id == addition.organization_id,
        store.commands[addition.key()].subject == addition.subject,
    ensures
        store.add(addition, started) == (
            store,
            AdditionOutcomeView::Ok(
                Ok(
                    AddMemberResponse {
                        created: false,
                        membership_id: store.commands[addition.key()].membership_id->0,
                        revision: notation::decimal(
                            store.commands[addition.key()].result_revision->0 as int,
                        ),
                    },
                ),
            ),
        ),
{
    effects::law_addition_has_its_effect(store, addition, started);
}

/// A removal under a key whose receipt is of the same command answers the
/// membership and revision in the receipt with `removed` false, and changes
/// nothing, whether or not the Organization is still active.
pub proof fn law_removal_is_replayed(
    store: Store,
    removal: Removal<Seq<char>>,
    started: int,
)
    requires
        store.valid(),
        removal.stage is Begin,
        store.commands.contains_key(removal.key()),
        store.commands[removal.key()].operation == membership::REMOVE_MEMBER@,
        store.commands[removal.key()].organization_id == removal.organization_id,
        store.commands[removal.key()].subject == removal.subject,
    ensures
        store.remove(removal, started) == (
            store,
            RemovalOutcomeView::Ok(
                Ok(
                    RemoveMemberResponse {
                        membership_id: store.commands[removal.key()].membership_id->0,
                        removed: false,
                        revision: notation::decimal(
                            store.commands[removal.key()].result_revision->0 as int,
                        ),
                    },
                ),
            ),
        ),
{
    effects::law_removal_has_its_effect(store, removal, started);
}

/// An addition under a key whose receipt is of another command is an
/// idempotency conflict, and changes nothing.
pub proof fn law_addition_key_is_for_one_command(
    store: Store,
    addition: Addition<Seq<char>>,
    started: int,
)
    requires
        store.valid(),
        addition.stage is Begin,
        store.commands.contains_key(addition.key()),
        store.commands[addition.key()].operation != membership::ADD_MEMBER@
            || store.commands[addition.key()].organization_id != addition.organization_id
            || store.commands[addition.key()].subject != addition.subject,
    ensures
        store.add(addition, started) == (
            store,
            AdditionOutcomeView::Ok(Err(AddMemberError::IdempotencyConflict)),
        ),
{
    effects::law_addition_has_its_effect(store, addition, started);
}

/// A removal under a key whose receipt is of another command is an idempotency
/// conflict, and changes nothing.
pub proof fn law_removal_key_is_for_one_command(
    store: Store,
    removal: Removal<Seq<char>>,
    started: int,
)
    requires
        store.valid(),
        removal.stage is Begin,
        store.commands.contains_key(removal.key()),
        store.commands[removal.key()].operation != membership::REMOVE_MEMBER@
            || store.commands[removal.key()].organization_id != removal.organization_id
            || store.commands[removal.key()].subject != removal.subject,
    ensures
        store.remove(removal, started) == (
            store,
            RemovalOutcomeView::Ok(Err(RemoveMemberError::IdempotencyConflict)),
        ),
{
    effects::law_removal_has_its_effect(store, removal, started);
}

/// A removal under the key of an addition that was answered is an idempotency
/// conflict, even for the same subject.
pub proof fn law_addition_and_removal_do_not_share_a_key(
    store: Store,
    addition: Addition<Seq<char>>,
    addition_started: int,
    removal: Removal<Seq<char>>,
    removal_started: int,
)
    requires
        store.valid(),
        addition.stage is Begin,
        store.add(addition, addition_started).1 matches Ok(Ok(_)),
        removal.stage is Begin,
        removal.key() == addition.key(),
    ensures
        store.add(addition, addition_started).0.remove(removal, removal_started) == (
            store.add(addition, addition_started).0,
            RemovalOutcomeView::Ok(Err(RemoveMemberError::IdempotencyConflict)),
        ),
{
    effects::law_addition_has_its_effect(store, addition, addition_started);
    effects::law_addition_keeps_the_tables_valid(store, addition, addition_started);
    effects::law_removal_has_its_effect(
        store.add(addition, addition_started).0,
        removal,
        removal_started,
    );
    reveal_strlit("add_member");
    reveal_strlit("remove_member");
    assert(membership::ADD_MEMBER@.len() != membership::REMOVE_MEMBER@.len());
}

/// An owner is not removed: neither one that a membership check may show, nor
/// any other.
pub proof fn law_owner_is_protected(
    store: Store,
    removal: Removal<Seq<char>>,
    started: int,
)
    requires
        store.valid(),
        removal.stage is Begin,
        !store.commands.contains_key(removal.key()),
        store.is_active(removal.organization_id),
        (store.member(removal.organization_id, removal.subject) matches Some(member)
            && member.is_owner) || exists|row: StandingRow|
            store.may_find(removal.organization_id, removal.subject, row) && row.owner == Some(
                true,
            ),
    ensures
        store.remove(removal, started) == (
            store,
            RemovalOutcomeView::Ok(Err(RemoveMemberError::OwnerProtected)),
        ),
{
    effects::law_removal_has_its_effect(store, removal, started);
    if exists|row: StandingRow|
        store.may_find(removal.organization_id, removal.subject, row) && row.owner == Some(true) {
        let found = choose|found: MembershipRecord| #[trigger]
            store::is_newest(
                store.memberships,
                removal.organization_id,
                removal.subject,
                found,
            ) && found.is_owner && found.active;
        let i = choose|i: int| 0 <= i < store.memberships.len() && store.memberships[i] == found;
        effects::lemma_member_is_found(store, i, removal.organization_id, removal.subject);
    }
}

/// After a removal the subject is no member, and the answer names the
/// membership that it had, one revision on. Every other membership is as it
/// was.
pub proof fn law_removed_subject_is_no_member(
    store: Store,
    removal: Removal<Seq<char>>,
    started: int,
)
    requires
        store.valid(),
        removal.stage is Begin,
        store.remove(removal, started).1 matches Ok(Ok(answer)) && answer.removed,
    ensures
        ({
            let (after, outcome) = store.remove(removal, started);
            let answer = outcome->Ok_0->Ok_0;
            let member = store.member(removal.organization_id, removal.subject);
            &&& member is Some
            &&& !member->0.is_owner
            &&& answer.membership_id == member->0.membership_id
            &&& answer.revision == notation::decimal(member->0.revision + 1)
            &&& after.member(removal.organization_id, removal.subject) is None
            &&& after.standing_is(
                removal.organization_id,
                removal.subject,
                StandingOutcomeView::Ok(
                    Ok(CheckMembershipResponse { active: false, owner: false }),
                ),
            )
            &&& after.memberships.len() == store.memberships.len()
            &&& forall|i: int|
                0 <= i < store.memberships.len() && (
                #[trigger] store.memberships[i]).membership_id != answer.membership_id
                    ==> after.memberships[i] == store.memberships[i]
        }),
{
    effects::law_removal_has_its_effect(store, removal, started);
    effects::law_removal_keeps_the_tables_valid(store, removal, started);
    let after = store.remove(removal, started).0;
    let member = store.member(removal.organization_id, removal.subject)->0;
    let at = choose|i: int|
        store::is_member_at(store.memberships, i, removal.organization_id, removal.subject);
    assert(store.memberships[at] == member);
    assert(after.memberships[at] == MembershipRecord {
        active: false,
        revision: (member.revision + 1) as i64,
        ..member
    });
    assert forall|i: int| 0 <= i < after.memberships.len() && i != at
        && after.memberships[i].is_of(removal.organization_id, removal.subject) implies !(
    #[trigger] after.memberships[i]).active by {
        if i < at {
            assert(!store.memberships[i].active);
        } else {
            assert(store.memberships[at].is_of(
                store.memberships[i].organization_id,
                store.memberships[i].subject,
            ));
        }
    }
    assert forall|i: int|
        !store::is_member_at(
            after.memberships,
            i,
            removal.organization_id,
            removal.subject,
        ) by {}
    lemma_standing_without_member(after, removal.organization_id, removal.subject);
}

/// A subject who was removed can be added again, as a new member at revision
/// 1.
pub proof fn law_removed_subject_can_return(
    store: Store,
    removal: Removal<Seq<char>>,
    removal_started: int,
    addition: Addition<Seq<char>>,
    addition_started: int,
)
    requires
        store.valid(),
        removal.stage is Begin,
        store.remove(removal, removal_started).1 matches Ok(Ok(answer)) && answer.removed,
        addition.organization_id == removal.organization_id,
        addition.subject == removal.subject,
        addition.key() != removal.key(),
        !store.commands.contains_key(addition.key()),
        addition.stage is Begin,
        store.remove(removal, removal_started).0.can_add(addition),
    ensures
        store.remove(removal, removal_started).0.add(addition, addition_started).1
            == AdditionOutcomeView::Ok(
            Ok(
                AddMemberResponse {
                    created: true,
                    membership_id: addition.generated_membership_id,
                    revision: notation::decimal(1),
                },
            ),
        ),
{
    effects::law_removal_has_its_effect(store, removal, removal_started);
    effects::law_removal_keeps_the_tables_valid(store, removal, removal_started);
    law_removed_subject_is_no_member(store, removal, removal_started);
    effects::law_addition_has_its_effect(
        store.remove(removal, removal_started).0,
        addition,
        addition_started,
    );
}

proof fn lemma_contained_in_longer(
    memberships: Seq<MembershipRecord>,
    longer: Seq<MembershipRecord>,
    membership: MembershipRecord,
)
    requires
        longer == memberships || (longer.len() > 0 && longer.drop_last() == memberships
            && longer.last() != membership),
    ensures
        longer.contains(membership) == memberships.contains(membership),
{
    if longer.contains(membership) && longer != memberships {
        let i = choose|i: int| 0 <= i < longer.len() && longer[i] == membership;
        assert(longer.drop_last()[i] == membership);
    }
    if memberships.contains(membership) && longer != memberships {
        let i = choose|i: int| 0 <= i < memberships.len() && memberships[i] == membership;
        assert(longer.drop_last()[i] == longer[i]);
    }
}

/// A creation leaves the standing of every subject in every other Organization
/// as it was, and the directory entries of those.
pub proof fn law_creation_leaves_others_alone(
    store: Store,
    creation: Creation<Seq<char>>,
    started: int,
    organization_id: Seq<char>,
    subject: Seq<char>,
)
    requires
        store.valid(),
        creation.stage is Begin,
        organization_id != creation.organization_id,
    ensures
        forall|row: StandingRow| #[trigger]
            store.create(creation, started).0.may_find(organization_id, subject, row)
                == store.may_find(organization_id, subject, row),
        store.create(creation, started).0.directory_entry(organization_id) == store.directory_entry(
            organization_id,
        ),
{
    effects::law_creation_has_its_effect(store, creation, started);
    let after = store.create(creation, started).0;
    assert(after.memberships == store.memberships || after.memberships.drop_last()
        =~= store.memberships);
    assert forall|membership: MembershipRecord|
        membership.is_of(organization_id, subject) implies #[trigger] after.memberships.contains(
        membership,
    ) == store.memberships.contains(membership) by {
        lemma_contained_in_longer(store.memberships, after.memberships, membership);
    }
    lemma_same_rows_are_found(after, store, organization_id, subject);
}

/// An addition leaves everyone else's standing as it was, and every directory
/// entry.
pub proof fn law_addition_leaves_others_alone(
    store: Store,
    addition: Addition<Seq<char>>,
    started: int,
    organization_id: Seq<char>,
    subject: Seq<char>,
)
    requires
        store.valid(),
        addition.stage is Begin,
        organization_id != addition.organization_id || subject != addition.subject,
    ensures
        forall|row: StandingRow| #[trigger]
            store.add(addition, started).0.may_find(organization_id, subject, row)
                == store.may_find(organization_id, subject, row),
        store.add(addition, started).0.directory_entry(organization_id) == store.directory_entry(
            organization_id,
        ),
{
    effects::law_addition_has_its_effect(store, addition, started);
    let after = store.add(addition, started).0;
    assert(after.memberships == store.memberships || after.memberships.drop_last()
        =~= store.memberships);
    assert forall|membership: MembershipRecord|
        membership.is_of(organization_id, subject) implies #[trigger] after.memberships.contains(
        membership,
    ) == store.memberships.contains(membership) by {
        lemma_contained_in_longer(store.memberships, after.memberships, membership);
    }
    lemma_same_rows_are_found(after, store, organization_id, subject);
}

/// A removal leaves everyone else's standing as it was, and every directory
/// entry.
pub proof fn law_removal_leaves_others_alone(
    store: Store,
    removal: Removal<Seq<char>>,
    started: int,
    organization_id: Seq<char>,
    subject: Seq<char>,
)
    requires
        store.valid(),
        removal.stage is Begin,
        organization_id != removal.organization_id || subject != removal.subject,
    ensures
        forall|row: StandingRow| #[trigger]
            store.remove(removal, started).0.may_find(organization_id, subject, row)
                == store.may_find(organization_id, subject, row),
        store.remove(removal, started).0.directory_entry(organization_id) == store.directory_entry(
            organization_id,
        ),
{
    effects::law_removal_has_its_effect(store, removal, started);
    let after = store.remove(removal, started).0;
    if store.remove(removal, started).1 matches Ok(Ok(answer)) && answer.removed {
        law_removed_subject_is_no_member(store, removal, started);
        let at = choose|i: int|
            store::is_member_at(store.memberships, i, removal.organization_id, removal.subject);
        assert forall|i: int| 0 <= i < after.memberships.len() && i != at implies (
        #[trigger] after.memberships[i]) == store.memberships[i] by {
            assert(store.memberships[i].membership_id != store.memberships[at].membership_id);
        }
        assert forall|membership: MembershipRecord|
            membership.is_of(organization_id, subject) implies
            #[trigger] after.memberships.contains(membership) == store.memberships.contains(
            membership,
        ) by {
            if after.memberships.contains(membership) {
                let i = choose|i: int|
                    0 <= i < after.memberships.len() && after.memberships[i] == membership;
                assert(store.memberships[i] == membership);
            }
            if store.memberships.contains(membership) {
                let i = choose|i: int|
                    0 <= i < store.memberships.len() && store.memberships[i] == membership;
                assert(after.memberships[i] == membership);
            }
        }
    }
    lemma_same_rows_are_found(after, store, organization_id, subject);
}

/// Where an Organization is archived or not stored, a new addition does not
/// find it.
pub proof fn law_addition_needs_an_active_organization(
    store: Store,
    addition: Addition<Seq<char>>,
    started: int,
)
    requires
        store.valid(),
        addition.stage is Begin,
        !store.is_active(addition.organization_id),
        !store.commands.contains_key(addition.key()),
    ensures
        store.add(addition, started) == (
            store,
            AdditionOutcomeView::Ok(Err(AddMemberError::OrganizationNotFound)),
        ),
{
    effects::law_addition_has_its_effect(store, addition, started);
}

/// Where an Organization is archived or not stored, a new removal does not
/// find it.
pub proof fn law_removal_needs_an_active_organization(
    store: Store,
    removal: Removal<Seq<char>>,
    started: int,
)
    requires
        store.valid(),
        removal.stage is Begin,
        !store.is_active(removal.organization_id),
        !store.commands.contains_key(removal.key()),
    ensures
        store.remove(removal, started) == (
            store,
            RemovalOutcomeView::Ok(Err(RemoveMemberError::OrganizationNotFound)),
        ),
{
    effects::law_removal_has_its_effect(store, removal, started);
}

/// Where an Organization is archived or not stored, a membership check does
/// not find it.
pub proof fn law_check_needs_an_active_organization(
    store: Store,
    organization_id: Seq<char>,
    subject: Seq<char>,
)
    requires
        !store.is_active(organization_id),
    ensures
        store.standing_is(
            organization_id,
            subject,
            StandingOutcomeView::Ok(Err(CheckMembershipError::OrganizationNotFound)),
        ),
{
}

/// An archived Organization stays in the directory, inactive and at its new
/// revision, and its slug is free again.
pub proof fn law_archived_organization_stays_in_the_directory(
    store: Store,
    organization_id: Seq<char>,
    revision: i64,
)
    requires
        store.valid(),
        store.is_active(organization_id),
    ensures
        ({
            let after = store.archived(organization_id, revision);
            let record = store.organizations[organization_id];
            &&& after.directory_entry(organization_id) == DirectoryOutcomeView::Ok(
                Ok(
                    GetOrganizationResponse {
                        active: false,
                        name: record.name,
                        organization_id,
                        revision: notation::decimal(revision as int),
                        slug: record.slug,
                    },
                ),
            )
            &&& !after.slug_taken(record.slug)
        }),
{
    let after = store.archived(organization_id, revision);
    let slug = store.organizations[organization_id].slug;
    assert forall|id: Seq<char>| #[trigger] after.organizations.contains_key(id)
        && after.organizations[id].active implies after.organizations[id].slug != slug by {
        assert(store.organizations.contains_key(id));
        assert(store.organizations.contains_key(organization_id));
    }
}

} // verus!
