//! What the later migrations make of the Module's tables, as a mathematical
//! model.
//!
//! Like the model of the statements it is a reading of the SQL, not tied to a
//! running database.

use vstd::prelude::*;

use crate::contracts::CheckMembershipResponse;
use crate::postgres_module::store::Store as ModuleStore;
use crate::postgres_plugin::effects;
use crate::postgres_plugin::laws;
use crate::postgres_plugin::queries::StandingOutcomeView;
use crate::postgres_plugin::store;
use crate::postgres_plugin::store::{MembershipRecord, Store};

verus! {

impl ModuleStore {
    /// The tables without roles: the owner role of a membership becomes its
    /// ownership, and no receipt is stored yet.
    pub open spec fn projected(self) -> Store {
        Store {
            organizations: self.organizations,
            memberships: Seq::new(
                self.memberships.len(),
                |i: int|
                    MembershipRecord {
                        membership_id: self.memberships[i].membership_id,
                        organization_id: self.memberships[i].organization_id,
                        subject: self.memberships[i].subject,
                        is_owner: self.is_owner_at(i),
                        active: self.memberships[i].active,
                        revision: self.memberships[i].revision,
                        created_at: self.memberships[i].created_at,
                    },
            ),
            creations: Map::empty(),
            commands: Map::empty(),
        }
    }

    /// The tables after the upgrade, unless it is refused: it is if an active
    /// Organization would have no active owner.
    pub open spec fn upgraded(self) -> Option<Store> {
        if self.projected().active_organizations_have_owners() {
            Some(self.projected())
        } else {
            None
        }
    }
}

proof fn lemma_owner_is_projected(legacy: ModuleStore, organization_id: Seq<char>)
    ensures
        legacy.projected().has_owner(organization_id) == legacy.has_owner(organization_id),
{
    let projected = legacy.projected();
    if legacy.has_owner(organization_id) {
        let i = choose|i: int|
            0 <= i < legacy.memberships.len() && (#[trigger] legacy.memberships[i]).active
                && legacy.memberships[i].organization_id == organization_id && legacy.is_owner_at(
                i,
            );
        assert(projected.memberships[i].is_owner);
    }
    if projected.has_owner(organization_id) {
        let i = choose|i: int|
            0 <= i < projected.memberships.len() && (
            #[trigger] projected.memberships[i]).organization_id == organization_id
                && projected.memberships[i].is_owner && projected.memberships[i].active;
        assert(legacy.memberships[i].active && legacy.is_owner_at(i));
    }
}

/// The upgrade is refused exactly if an active Organization has no active
/// member with its owner role.
pub proof fn law_upgrade_needs_an_owner_everywhere(legacy: ModuleStore)
    ensures
        legacy.upgraded() is Some <==> (forall|id: Seq<char>| #[trigger]
            legacy.organizations.contains_key(id) && legacy.organizations[id].active
                ==> legacy.has_owner(id)),
{
    assert forall|id: Seq<char>|
        legacy.projected().has_owner(id) == #[trigger] legacy.has_owner(id) by {
        lemma_owner_is_projected(legacy, id);
    }
    if legacy.upgraded() is Some {
        assert forall|id: Seq<char>| #[trigger] legacy.organizations.contains_key(id)
            && legacy.organizations[id].active implies legacy.has_owner(id) by {
            assert(legacy.projected().organizations.contains_key(id));
            lemma_owner_is_projected(legacy, id);
        }
    }
}

/// Whatever the Module stored can be upgraded, and the upgraded tables are
/// valid for the Plugin.
pub proof fn law_module_tables_can_be_upgraded(legacy: ModuleStore)
    requires
        legacy.valid(),
    ensures
        legacy.upgraded() is Some,
        legacy.upgraded()->0.valid(),
{
    law_upgrade_needs_an_owner_everywhere(legacy);
    let projected = legacy.projected();
    assert(projected.only_latest_active()) by {
        assert forall|i: int, j: int|
            #![trigger projected.memberships[i], projected.memberships[j]]
            0 <= i < j < projected.memberships.len() && projected.memberships[i].is_of(
                projected.memberships[j].organization_id,
                projected.memberships[j].subject,
            ) implies !projected.memberships[i].active by {
            assert(!legacy.memberships[i].active || legacy.memberships[i].subject
                != legacy.memberships[j].subject);
        }
    }
    assert(projected.memberships_are_distinct()) by {
        assert forall|i: int, j: int|
            #![trigger projected.memberships[i], projected.memberships[j]]
            0 <= i < j < projected.memberships.len() implies projected.memberships[i].membership_id
            != projected.memberships[j].membership_id by {
            assert(legacy.memberships[i].membership_id != legacy.memberships[j].membership_id);
        }
    }
    assert(projected.memberships_have_organizations()) by {
        assert forall|i: int| 0 <= i < projected.memberships.len() implies
            projected.organizations.contains_key(
            (#[trigger] projected.memberships[i]).organization_id,
        ) by {
            assert(legacy.organizations.contains_key(legacy.memberships[i].organization_id));
        }
    }
    assert(projected.active_slugs_are_distinct()) by {
        assert forall|a: Seq<char>, b: Seq<char>|
            #![trigger legacy.organizations.contains_key(a), legacy.organizations.contains_key(b)]
            projected.is_active(a) && projected.is_active(b) && projected.organizations[a].slug
                == projected.organizations[b].slug implies a == b by {
            assert(legacy.is_active(a) && legacy.is_active(b));
            assert(legacy.organizations.contains_key(a));
            assert(legacy.organizations.contains_key(b));
        }
    }
}

/// After the upgrade an active member of an active Organization is an active
/// member still, and an owner exactly if it had the owner role. A membership
/// check sees it as long as it is newer than the subject's other memberships in
/// the Organization.
pub proof fn law_upgrade_keeps_members_and_owners(legacy: ModuleStore, i: int)
    requires
        legacy.valid(),
        0 <= i < legacy.memberships.len(),
        legacy.memberships[i].active,
    ensures
        ({
            let membership = legacy.memberships[i];
            let upgraded = legacy.upgraded()->0;
            &&& upgraded.member(membership.organization_id, membership.subject) == Some(
                upgraded.memberships[i],
            )
            &&& upgraded.memberships[i].membership_id == membership.membership_id
            &&& upgraded.memberships[i].is_owner == legacy.is_owner_at(i)
            &&& upgraded.memberships[i].created_at == membership.created_at
            &&& legacy.is_active(membership.organization_id) && upgraded.is_newer_than_others(
                upgraded.memberships[i],
            ) ==> upgraded.standing_is(
                membership.organization_id,
                membership.subject,
                StandingOutcomeView::Ok(
                    Ok(CheckMembershipResponse { active: true, owner: legacy.is_owner_at(i) }),
                ),
            )
        }),
{
    law_module_tables_can_be_upgraded(legacy);
    let membership = legacy.memberships[i];
    let upgraded = legacy.upgraded()->0;
    assert(store::is_member_at(
        upgraded.memberships,
        i,
        membership.organization_id,
        membership.subject,
    ));
    effects::lemma_member_is_found(
        upgraded,
        i,
        membership.organization_id,
        membership.subject,
    );
    if legacy.is_active(membership.organization_id) && upgraded.is_newer_than_others(
        upgraded.memberships[i],
    ) {
        laws::lemma_standing_of_newest(
            upgraded,
            membership.organization_id,
            membership.subject,
            upgraded.memberships[i],
        );
    }
}

} // verus!
