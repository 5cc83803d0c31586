//! What holds over any run of events, one after the other.

use vstd::prelude::*;

use crate::contracts::{
    AddMemberResponse, CheckMembershipResponse, CreateOrganizationRequest,
    CreateOrganizationResponse, RemoveMemberResponse,
};
use crate::postgres_plugin::creation::{Creation, CreationOutcomeView};
use crate::postgres_plugin::effects;
use crate::postgres_plugin::laws;
use crate::postgres_plugin::membership::{
    Addition, AdditionOutcomeView, Removal, RemovalOutcomeView,
};
use crate::postgres_plugin::queries::StandingOutcomeView;
use crate::postgres_plugin::store;
use crate::postgres_plugin::store::{ReceiptKey, Store};
use crate::text;

verus! {

impl Store {
    /// Whether every receipt is still there as it was.
    pub open spec fn keeps_receipts_of(self, earlier: Store) -> bool {
        &&& forall|key: ReceiptKey| #[trigger]
            earlier.creations.contains_key(key) ==> self.creations.contains_key(key)
                && self.creations[key] == earlier.creations[key]
        &&& forall|key: ReceiptKey| #[trigger]
            earlier.commands.contains_key(key) ==> self.commands.contains_key(key)
                && self.commands[key] == earlier.commands[key]
    }
}

impl Creation<Seq<char>> {
    /// Whether two creations ask for the same under the same key.
    pub open spec fn repeats(self, other: Self) -> bool {
        &&& self.key() == other.key()
        &&& self.name == other.name
        &&& self.slug == other.slug
        &&& self.owner_subject == other.owner_subject
    }
}

/// One thing that can happen to the tables between two states that others see.
pub enum Event {
    Create { creation: Creation<Seq<char>>, started: int },
    Add { addition: Addition<Seq<char>>, started: int },
    Remove { removal: Removal<Seq<char>>, started: int },
    /// An operator archives an Organization.
    Archive { organization_id: Seq<char>, revision: i64 },
}

impl Event {
    /// When the operation started. An archiving is none.
    pub open spec fn start(self) -> Option<int> {
        match self {
            Event::Create { started, .. } => Some(started),
            Event::Add { started, .. } => Some(started),
            Event::Remove { started, .. } => Some(started),
            Event::Archive { .. } => None,
        }
    }
}

impl Store {
    /// Whether the event can happen: an operation is at its start.
    pub open spec fn admits(self, event: Event) -> bool {
        match event {
            Event::Create { creation, .. } => creation.stage is Begin,
            Event::Add { addition, .. } => addition.stage is Begin,
            Event::Remove { removal, .. } => removal.stage is Begin,
            Event::Archive { .. } => true,
        }
    }

    /// The tables after an event.
    pub open spec fn after(self, event: Event) -> Store {
        match event {
            Event::Create { creation, started } => self.create(creation, started).0,
            Event::Add { addition, started } => self.add(addition, started).0,
            Event::Remove { removal, started } => self.remove(removal, started).0,
            Event::Archive { organization_id, revision } => self.archived(
                organization_id,
                revision,
            ),
        }
    }

    /// The tables after events.
    pub open spec fn after_all(self, events: Seq<Event>) -> Store
        decreases events.len(),
    {
        if events.len() == 0 {
            self
        } else {
            self.after_all(events.drop_last()).after(events.last())
        }
    }

    /// Whether the events can happen one after the other.
    pub open spec fn admits_all(self, events: Seq<Event>) -> bool
        decreases events.len(),
    {
        events.len() == 0 || (self.admits_all(events.drop_last()) && self.after_all(
            events.drop_last(),
        ).admits(events.last()))
    }
}

/// Tables without a row are valid.
pub proof fn law_empty_tables_are_valid()
    ensures
        Store::empty().valid(),
{
}

/// One event keeps the tables valid and every receipt as it is.
pub proof fn lemma_event(store: Store, event: Event)
    requires
        store.valid(),
        store.admits(event),
    ensures
        store.after(event).valid(),
        store.after(event).keeps_receipts_of(store),
{
    match event {
        Event::Create { creation, started } => {
            effects::law_creation_has_its_effect(store, creation, started);
            effects::law_creation_keeps_the_tables_valid(store, creation, started);
        },
        Event::Add { addition, started } => {
            effects::law_addition_has_its_effect(store, addition, started);
            effects::law_addition_keeps_the_tables_valid(store, addition, started);
        },
        Event::Remove { removal, started } => {
            effects::law_removal_has_its_effect(store, removal, started);
            effects::law_removal_keeps_the_tables_valid(store, removal, started);
        },
        Event::Archive { organization_id, revision } => {
            effects::law_archiving_keeps_the_tables_valid(store, organization_id, revision);
        },
    }
}

/// Whatever happens, the tables stay valid and every receipt stays as it is.
pub proof fn law_tables_stay_valid_and_receipts_stay(store: Store, events: Seq<Event>)
    requires
        store.valid(),
        store.admits_all(events),
    ensures
        store.after_all(events).valid(),
        store.after_all(events).keeps_receipts_of(store),
    decreases events.len(),
{
    if events.len() > 0 {
        law_tables_stay_valid_and_receipts_stay(store, events.drop_last());
        lemma_event(store.after_all(events.drop_last()), events.last());
    }
}

/// What happens in one run can be taken as happening in two.
pub proof fn lemma_events_split(store: Store, events: Seq<Event>, at: int)
    requires
        0 <= at <= events.len(),
    ensures
        store.after_all(events) == store.after_all(events.take(at)).after_all(events.skip(at)),
        store.admits_all(events) ==> store.admits_all(events.take(at)) && store.after_all(
            events.take(at),
        ).admits_all(events.skip(at)),
    decreases events.len(),
{
    if at == events.len() {
        assert(events.take(at) =~= events);
        assert(events.skip(at) =~= Seq::empty());
    } else {
        lemma_events_split(store, events.drop_last(), at);
        assert(events.drop_last().take(at) =~= events.take(at));
        assert(events.drop_last().skip(at) =~= events.skip(at).drop_last());
    }
}

/// Of two events the later one comes after the earlier one and whatever
/// happened in between.
pub proof fn lemma_later_event(store: Store, events: Seq<Event>, earlier: int, later: int)
    requires
        store.valid(),
        store.admits_all(events),
        0 <= earlier < later < events.len(),
    ensures
        ({
            let before = store.after_all(events.take(earlier));
            let between = events.subrange(earlier + 1, later);
            let middle = before.after(events[earlier]);
            &&& before.valid()
            &&& before.admits(events[earlier])
            &&& middle.admits_all(between)
            &&& store.after_all(events.take(later)) == middle.after_all(between)
            &&& middle.after_all(between).admits(events[later])
        }),
{
    lemma_events_split(store, events, later + 1);
    let known = events.take(later + 1);
    assert(known.drop_last() =~= events.take(later));
    let past = events.take(later);
    lemma_events_split(store, past, earlier + 1);
    assert(past.take(earlier + 1).drop_last() =~= events.take(earlier));
    assert(past.skip(earlier + 1) =~= events.subrange(earlier + 1, later));
    lemma_events_split(store, events, earlier);
    law_tables_stay_valid_and_receipts_stay(store, events.take(earlier));
}

/// A creation that was answered is answered with the same identifiers and
/// `created` false whenever it is repeated, whatever happened in between.
pub proof fn law_creation_is_replayed_ever_after(
    store: Store,
    creation: Creation<Seq<char>>,
    started: int,
    events: Seq<Event>,
    repeated: Creation<Seq<char>>,
    repeated_started: int,
)
    requires
        store.valid(),
        creation.stage is Begin,
        store.create(creation, started).1 matches Ok(Ok(_)),
        store.create(creation, started).0.admits_all(events),
        repeated.repeats(creation),
        repeated.stage is Begin,
    ensures
        ({
            let (middle, outcome) = store.create(creation, started);
            let later = middle.after_all(events);
            let answer = outcome->Ok_0->Ok_0;
            later.create(repeated, repeated_started) == (
                later,
                CreationOutcomeView::Ok(
                    Ok(
                        CreateOrganizationResponse {
                            created: false,
                            organization_id: answer.organization_id,
                            owner_membership_id: answer.owner_membership_id,
                        },
                    ),
                ),
            )
        }),
{
    effects::law_creation_has_its_effect(store, creation, started);
    effects::law_creation_keeps_the_tables_valid(store, creation, started);
    let middle = store.create(creation, started).0;
    assert(middle.creations.contains_key(creation.key()));
    law_tables_stay_valid_and_receipts_stay(middle, events);
    effects::law_creation_has_its_effect(middle.after_all(events), repeated, repeated_started);
}

/// A request that a caller repeats under the same key with the same slug,
/// owner and name, white space around the name aside, is answered with the
/// first answer's identifiers and `created` false, whatever happened in
/// between and whatever identifiers were drawn for it.
pub proof fn law_normalized_intent_is_replayed(
    store: Store,
    caller: Seq<char>,
    request: CreateOrganizationRequest<Seq<char>>,
    organization_id: Seq<char>,
    owner_membership_id: Seq<char>,
    started: int,
    events: Seq<Event>,
    repeated: CreateOrganizationRequest<Seq<char>>,
    drawn_organization_id: Seq<char>,
    drawn_membership_id: Seq<char>,
    repeated_started: int,
)
    requires
        store.valid(),
        store.create(
            request.begun(caller, organization_id, owner_membership_id),
            started,
        ).1 matches Ok(Ok(_)),
        store.create(
            request.begun(caller, organization_id, owner_membership_id),
            started,
        ).0.admits_all(events),
        repeated.idempotency_key == request.idempotency_key,
        repeated.slug == request.slug,
        repeated.owner_subject == request.owner_subject,
        text::trimmed(repeated.name) == text::trimmed(request.name),
    ensures
        ({
            let (middle, outcome) = store.create(
                request.begun(caller, organization_id, owner_membership_id),
                started,
            );
            let later = middle.after_all(events);
            let answer = outcome->Ok_0->Ok_0;
            later.create(
                repeated.begun(caller, drawn_organization_id, drawn_membership_id),
                repeated_started,
            ) == (
                later,
                CreationOutcomeView::Ok(
                    Ok(
                        CreateOrganizationResponse {
                            created: false,
                            organization_id: answer.organization_id,
                            owner_membership_id: answer.owner_membership_id,
                        },
                    ),
                ),
            )
        }),
{
    law_creation_is_replayed_ever_after(
        store,
        request.begun(caller, organization_id, owner_membership_id),
        started,
        events,
        repeated.begun(caller, drawn_organization_id, drawn_membership_id),
        repeated_started,
    );
}

/// An addition that was answered is answered with the same membership and
/// revision and `created` false whenever it is repeated, whatever happened in
/// between.
pub proof fn law_addition_is_replayed_ever_after(
    store: Store,
    addition: Addition<Seq<char>>,
    started: int,
    events: Seq<Event>,
    repeated: Addition<Seq<char>>,
    repeated_started: int,
)
    requires
        store.valid(),
        addition.stage is Begin,
        store.add(addition, started).1 matches Ok(Ok(_)),
        store.add(addition, started).0.admits_all(events),
        repeated.key() == addition.key(),
        repeated.organization_id == addition.organization_id,
        repeated.subject == addition.subject,
        repeated.stage is Begin,
    ensures
        ({
            let (middle, outcome) = store.add(addition, started);
            let later = middle.after_all(events);
            let answer = outcome->Ok_0->Ok_0;
            later.add(repeated, repeated_started) == (
                later,
                AdditionOutcomeView::Ok(
                    Ok(
                        AddMemberResponse {
                            created: false,
                            membership_id: answer.membership_id,
                            revision: answer.revision,
                        },
                    ),
                ),
            )
        }),
{
    effects::law_addition_has_its_effect(store, addition, started);
    effects::law_addition_keeps_the_tables_valid(store, addition, started);
    let middle = store.add(addition, started).0;
    assert(middle.commands.contains_key(addition.key()));
    law_tables_stay_valid_and_receipts_stay(middle, events);
    effects::law_addition_has_its_effect(middle.after_all(events), repeated, repeated_started);
}

/// A removal that was answered is answered with the same membership and
/// revision and `removed` false whenever it is repeated, whatever happened in
/// between.
pub proof fn law_removal_is_replayed_ever_after(
    store: Store,
    removal: Removal<Seq<char>>,
    started: int,
    events: Seq<Event>,
    repeated: Removal<Seq<char>>,
    repeated_started: int,
)
    requires
        store.valid(),
        removal.stage is Begin,
        store.remove(removal, started).1 matches Ok(Ok(_)),
        store.remove(removal, started).0.admits_all(events),
        repeated.key() == removal.key(),
        repeated.organization_id == removal.organization_id,
        repeated.subject == removal.subject,
        repeated.stage is Begin,
    ensures
        ({
            let (middle, outcome) = store.remove(removal, started);
            let later = middle.after_all(events);
            let answer = outcome->Ok_0->Ok_0;
            later.remove(repeated, repeated_started) == (
                later,
                RemovalOutcomeView::Ok(
                    Ok(
                        RemoveMemberResponse {
                            membership_id: answer.membership_id,
                            removed: false,
                            revision: answer.revision,
                        },
                    ),
                ),
            )
        }),
{
    effects::law_removal_has_its_effect(store, removal, started);
    effects::law_removal_keeps_the_tables_valid(store, removal, started);
    let middle = store.remove(removal, started).0;
    assert(middle.commands.contains_key(removal.key()));
    law_tables_stay_valid_and_receipts_stay(middle, events);
    effects::law_removal_has_its_effect(middle.after_all(events), repeated, repeated_started);
}

impl Store {
    /// Whether the active membership of the subject, if there is one, is newer
    /// than its other ones.
    pub open spec fn member_is_newest(
        self,
        organization_id: Seq<char>,
        subject: Seq<char>,
    ) -> bool {
        forall|i: int| #[trigger]
            store::is_member_at(self.memberships, i, organization_id, subject)
                ==> self.is_newer_than_others(self.memberships[i])
    }

    /// Whether the addition makes its subject a member that it was not.
    pub open spec fn makes_member(self, addition: Addition<Seq<char>>, started: int) -> bool {
        self.add(addition, started).1 matches Ok(Ok(answer)) && answer.created
    }

    /// Whether the event is in time for the subject: an addition that makes it
    /// a member started after each of its earlier memberships was created.
    pub open spec fn is_in_time(
        self,
        event: Event,
        organization_id: Seq<char>,
        subject: Seq<char>,
    ) -> bool {
        match event {
            Event::Add { addition, started } => addition.organization_id == organization_id
                && addition.subject == subject && self.makes_member(addition, started)
                ==> forall|i: int|
                0 <= i < self.memberships.len() && (#[trigger] self.memberships[i]).is_of(
                    organization_id,
                    subject,
                ) ==> self.memberships[i].created_at < started,
            _ => true,
        }
    }

    /// Whether the events are each in time for the subject.
    pub open spec fn are_in_time(
        self,
        events: Seq<Event>,
        organization_id: Seq<char>,
        subject: Seq<char>,
    ) -> bool {
        forall|k: int|
            0 <= k < events.len() ==> self.after_all(events.take(k)).is_in_time(
                #[trigger] events[k],
                organization_id,
                subject,
            )
    }

    /// Whether each operation started after every membership that was there
    /// before it was created.
    pub open spec fn started_in_order(self, events: Seq<Event>) -> bool {
        forall|k: int, i: int|
            #![trigger events[k], self.after_all(events.take(k)).memberships[i]]
            0 <= k < events.len() && 0 <= i < self.after_all(events.take(k)).memberships.len()
                && events[k].start() is Some ==> self.after_all(
                events.take(k),
            ).memberships[i].created_at < events[k].start()->0
    }

    /// What a membership check tells of an active Organization if it tells the
    /// truth: whether the subject is a member, and whether an owner.
    pub open spec fn true_standing(
        self,
        organization_id: Seq<char>,
        subject: Seq<char>,
    ) -> StandingOutcomeView {
        let member = self.member(organization_id, subject);
        Ok(
            Ok(
                CheckMembershipResponse {
                    active: member is Some,
                    owner: member is Some && member->0.is_owner,
                },
            ),
        )
    }
}

proof fn lemma_created_is_newest(
    store: Store,
    creation: Creation<Seq<char>>,
    started: int,
    organization_id: Seq<char>,
    subject: Seq<char>,
)
    requires
        store.valid(),
        creation.stage is Begin,
        store.member_is_newest(organization_id, subject),
    ensures
        store.create(creation, started).0.member_is_newest(organization_id, subject),
{
    effects::law_creation_has_its_effect(store, creation, started);
    let after = store.create(creation, started).0;
    if after != store {
        let last = store.memberships.len() as int;
        assert forall|i: int| #[trigger]
            store::is_member_at(after.memberships, i, organization_id, subject) implies
            after.is_newer_than_others(after.memberships[i]) by {
            assert forall|j: int|
                0 <= j < after.memberships.len() && (#[trigger] after.memberships[j]).is_of(
                    organization_id,
                    subject,
                ) && after.memberships[j] != after.memberships[i] implies
                after.memberships[j].created_at < after.memberships[i].created_at by {
                if i == last {
                    assert(store.organizations.contains_key(store.memberships[j].organization_id));
                } else {
                    assert(store::is_member_at(store.memberships, i, organization_id, subject));
                    assert(store.organizations.contains_key(store.memberships[i].organization_id));
                    assert(store.memberships[j] == after.memberships[j]);
                }
            }
        }
    }
}

proof fn lemma_added_is_newest(
    store: Store,
    addition: Addition<Seq<char>>,
    started: int,
    organization_id: Seq<char>,
    subject: Seq<char>,
)
    requires
        store.valid(),
        addition.stage is Begin,
        store.is_in_time(Event::Add { addition, started }, organization_id, subject),
        store.member_is_newest(organization_id, subject),
    ensures
        store.add(addition, started).0.member_is_newest(organization_id, subject),
{
    effects::law_addition_has_its_effect(store, addition, started);
    let after = store.add(addition, started).0;
    let last = store.memberships.len() as int;
    assert forall|i: int| #[trigger]
        store::is_member_at(after.memberships, i, organization_id, subject) implies
        after.is_newer_than_others(after.memberships[i]) by {
        if i < last {
            assert(store::is_member_at(store.memberships, i, organization_id, subject));
        }
        assert forall|j: int|
            0 <= j < after.memberships.len() && (#[trigger] after.memberships[j]).is_of(
                organization_id,
                subject,
            ) && after.memberships[j] != after.memberships[i] implies
            after.memberships[j].created_at < after.memberships[i].created_at by {
            if j < last {
                assert(store.memberships[j] == after.memberships[j]);
            }
        }
    }
}

proof fn lemma_remaining_is_newest(
    store: Store,
    removal: Removal<Seq<char>>,
    started: int,
    organization_id: Seq<char>,
    subject: Seq<char>,
)
    requires
        store.valid(),
        removal.stage is Begin,
        store.member_is_newest(organization_id, subject),
    ensures
        store.remove(removal, started).0.member_is_newest(organization_id, subject),
{
    effects::law_removal_has_its_effect(store, removal, started);
    let after = store.remove(removal, started).0;
    assert forall|i: int| #[trigger]
        store::is_member_at(after.memberships, i, organization_id, subject) implies
        after.is_newer_than_others(after.memberships[i]) by {
        assert(store::is_member_at(store.memberships, i, organization_id, subject));
        assert(after.memberships[i] == store.memberships[i]);
        assert forall|j: int|
            0 <= j < after.memberships.len() && (#[trigger] after.memberships[j]).is_of(
                organization_id,
                subject,
            ) && after.memberships[j] != after.memberships[i] implies
            after.memberships[j].created_at < after.memberships[i].created_at by {
            assert(store.memberships[j].membership_id != store.memberships[i].membership_id);
        }
    }
}

proof fn lemma_event_keeps_member_newest(
    store: Store,
    event: Event,
    organization_id: Seq<char>,
    subject: Seq<char>,
)
    requires
        store.valid(),
        store.admits(event),
        store.is_in_time(event, organization_id, subject),
        store.member_is_newest(organization_id, subject),
    ensures
        store.after(event).member_is_newest(organization_id, subject),
{
    match event {
        Event::Create { creation, started } => {
            lemma_created_is_newest(store, creation, started, organization_id, subject);
        },
        Event::Add { addition, started } => {
            lemma_added_is_newest(store, addition, started, organization_id, subject);
        },
        Event::Remove { removal, started } => {
            lemma_remaining_is_newest(store, removal, started, organization_id, subject);
        },
        Event::Archive { organization_id: archived, revision } => {
            assert(store.archived(archived, revision).memberships == store.memberships);
        },
    }
}

/// After any run in which the additions that made the subject a member were in
/// time, a membership check in an active Organization tells whether the subject
/// is a member, and whether an owner. Nothing is asked of what other subjects
/// or Organizations did, nor of removals.
pub proof fn law_standing_is_told_after_a_run(
    store: Store,
    events: Seq<Event>,
    organization_id: Seq<char>,
    subject: Seq<char>,
)
    requires
        store.valid(),
        store.admits_all(events),
        store.member_is_newest(organization_id, subject),
        store.are_in_time(events, organization_id, subject),
    ensures
        store.after_all(events).member_is_newest(organization_id, subject),
        store.after_all(events).is_active(organization_id) ==> store.after_all(events).standing_is(
            organization_id,
            subject,
            store.after_all(events).true_standing(organization_id, subject),
        ),
    decreases events.len(),
{
    let after = store.after_all(events);
    if events.len() > 0 {
        let past = events.drop_last();
        assert(store.are_in_time(past, organization_id, subject)) by {
            assert forall|k: int| 0 <= k < past.len() implies store.after_all(
                past.take(k),
            ).is_in_time(#[trigger] past[k], organization_id, subject) by {
                assert(past.take(k) =~= events.take(k));
                assert(past[k] == events[k]);
            }
        }
        law_standing_is_told_after_a_run(store, past, organization_id, subject);
        law_tables_stay_valid_and_receipts_stay(store, past);
        assert(events.take(events.len() - 1) =~= past);
        assert(events.last() == events[events.len() - 1]);
        lemma_event_keeps_member_newest(
            store.after_all(past),
            events.last(),
            organization_id,
            subject,
        );
    }
    if after.is_active(organization_id) {
        if after.member(organization_id, subject) is Some {
            let i = choose|i: int|
                store::is_member_at(after.memberships, i, organization_id, subject);
            assert(after.memberships.contains(after.memberships[i]));
            laws::lemma_standing_of_newest(
                after,
                organization_id,
                subject,
                after.memberships[i],
            );
        } else {
            laws::lemma_standing_without_member(after, organization_id, subject);
        }
    }
}

/// Where operations started in the order in which they ended, a membership
/// check in any active Organization tells of any subject whether it is a
/// member, and whether an owner.
pub proof fn law_ordered_run_tells_every_standing(events: Seq<Event>)
    requires
        Store::empty().admits_all(events),
        Store::empty().started_in_order(events),
    ensures
        forall|organization_id: Seq<char>, subject: Seq<char>|
            Store::empty().after_all(events).is_active(organization_id)
                ==> #[trigger] Store::empty().after_all(events).standing_is(
                organization_id,
                subject,
                Store::empty().after_all(events).true_standing(organization_id, subject),
            ),
{
    law_empty_tables_are_valid();
    assert forall|organization_id: Seq<char>, subject: Seq<char>|
        Store::empty().after_all(events).is_active(organization_id) implies
        #[trigger] Store::empty().after_all(events).standing_is(
        organization_id,
        subject,
        Store::empty().after_all(events).true_standing(organization_id, subject),
    ) by {
        assert forall|k: int| 0 <= k < events.len() implies Store::empty().after_all(
            events.take(k),
        ).is_in_time(#[trigger] events[k], organization_id, subject) by {}
        law_standing_is_told_after_a_run(Store::empty(), events, organization_id, subject);
    }
}

} // verus!
