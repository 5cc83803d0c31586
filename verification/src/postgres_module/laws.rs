//! What holds of the Module's operations together, over the model of its
//! tables.

use vstd::prelude::*;

use crate::postgres_module;
use crate::postgres_module::contracts::{
    CheckPermissionResponse, CreateOrganizationError, CreateOrganizationResponse,
};
use crate::postgres_module::creation;
use crate::postgres_module::creation::{Creation, CreationOutcomeView};
use crate::postgres_module::provider;
use crate::postgres_module::provider::AccessOutcomeView;
use crate::postgres_module::statements;
use crate::postgres_module::statements::{Reply, Statement};
use crate::postgres_module::store;
use crate::postgres_module::store::{MembershipRecord, RoleRecord, Store};
use crate::postgres_plugin::store::OrganizationRecord;
use crate::transaction::Progress;

verus! {

impl Store {
    /// What a creation does: a slug that is taken is a conflict, and otherwise
    /// the Organization, its owner role and its owner are stored together. An
    /// identifier that a row has already is a failure.
    pub open spec fn creation_effect(self, creation: Creation<Seq<char>>, started: int) -> (
        Store,
        CreationOutcomeView,
    ) {
        if self.organizations.contains_key(creation.organization_id) {
            (self, Err(postgres_module::database_failure("insert organization"@)))
        } else if self.slug_taken(creation.slug) {
            (self, Ok(Err(CreateOrganizationError::SlugConflict)))
        } else if self.roles.contains_key(creation.owner_role_id) {
            (self, Err(postgres_module::database_failure("insert owner role"@)))
        } else if self.has_membership(creation.owner_membership_id) {
            (self, Err(postgres_module::database_failure("insert owner membership"@)))
        } else {
            (
                Store {
                    organizations: self.organizations.insert(
                        creation.organization_id,
                        OrganizationRecord {
                            name: creation.name,
                            slug: creation.slug,
                            active: true,
                            revision: 1,
                        },
                    ),
                    roles: self.roles.insert(
                        creation.owner_role_id,
                        RoleRecord {
                            organization_id: creation.organization_id,
                            permissions: statements::owner_permissions(),
                            is_owner: true,
                        },
                    ),
                    memberships: self.memberships.push(
                        MembershipRecord {
                            membership_id: creation.owner_membership_id,
                            organization_id: creation.organization_id,
                            subject: creation.owner_subject,
                            role_id: creation.owner_role_id,
                            active: true,
                            revision: 1,
                            created_at: started,
                        },
                    ),
                },
                Ok(
                    Ok(
                        CreateOrganizationResponse {
                            organization_id: creation.organization_id,
                            owner_membership_id: creation.owner_membership_id,
                            owner_role_id: creation.owner_role_id,
                        },
                    ),
                ),
            )
        }
    }

    /// What a permission check is answered.
    pub open spec fn access(
        self,
        organization_id: Seq<char>,
        subject: Seq<char>,
        permission: Seq<char>,
    ) -> AccessOutcomeView {
        provider::access_outcome(
            Reply::Access(self.access_row(organization_id, subject, permission)),
        )
    }
}

/// A creation does what its effect says, in one transaction: a taken slug is a
/// conflict that changes nothing.
pub proof fn law_creation_has_its_effect(
    store: Store,
    creation: Creation<Seq<char>>,
    started: int,
)
    requires
        store.valid(),
        creation.stage is Begin,
    ensures
        store.create(creation, started) == store.creation_effect(creation, started),
{
    reveal_with_fuel(store::run_creation, 6);
    reveal_strlit("organizations_pkey");
    reveal_strlit("organizations_active_slug_key");
    assert("organizations_pkey"@.len() != creation::ACTIVE_SLUG_CONSTRAINT@.len());
    if !store.organizations.contains_key(creation.organization_id) && !store.slug_taken(
        creation.slug,
    ) {
        let organized = store.executed(
            Statement::InsertOrganization {
                organization_id: creation.organization_id,
                name: creation.name,
                slug: creation.slug,
            },
            started,
        ).0;
        let with_role = organized.executed(
            Statement::InsertOwnerRole {
                role_id: creation.owner_role_id,
                organization_id: creation.organization_id,
            },
            started,
        ).0;
        assert(with_role.memberships == store.memberships);
        assert forall|i: int| 0 <= i < store.memberships.len() implies (
        #[trigger] store.memberships[i]).organization_id != creation.organization_id by {}
        assert(with_role.has_membership(creation.owner_membership_id) == store.has_membership(
            creation.owner_membership_id,
        ));
        assert(!with_role.has_member(creation.organization_id, creation.owner_subject));
    }
}

/// Whatever a creation is answered, the tables stay valid.
pub proof fn law_creation_keeps_the_tables_valid(
    store: Store,
    creation: Creation<Seq<char>>,
    started: int,
)
    requires
        store.valid(),
        creation.stage is Begin,
    ensures
        store.create(creation, started).0.valid(),
{
    law_creation_has_its_effect(store, creation, started);
    if store.create(creation, started).1 matches Ok(Ok(_)) {
        let after = store.create(creation, started).0;
        let last = store.memberships.len() as int;
        assert forall|i: int| 0 <= i < last implies #[trigger] after.memberships[i]
            == store.memberships[i] by {}
        assert forall|i: int, j: int|
            #![trigger after.memberships[i], after.memberships[j]]
            0 <= i < j < after.memberships.len() implies after.memberships[i].membership_id
            != after.memberships[j].membership_id by {
            if j == last {
                assert(store.memberships[i].membership_id != creation.owner_membership_id);
            }
        }
        assert forall|i: int| 0 <= i < after.memberships.len() implies
            after.organizations.contains_key((#[trigger] after.memberships[i]).organization_id)
            && after.roles.contains_key(after.memberships[i].role_id) by {
            if i < last {
                assert(store.organizations.contains_key(store.memberships[i].organization_id));
            }
        }
        assert forall|i: int, j: int|
            #![trigger after.memberships[i], after.memberships[j]]
            0 <= i < j < after.memberships.len() && after.memberships[i].organization_id
                == after.memberships[j].organization_id && after.memberships[i].subject
                == after.memberships[j].subject implies !after.memberships[i].active by {
            if j == last {
                assert(store.organizations.contains_key(store.memberships[i].organization_id));
            }
        }
        assert forall|id: Seq<char>| #[trigger] after.organizations.contains_key(id)
            && after.organizations[id].active implies after.has_owner(id) by {
            if id == creation.organization_id {
                assert(after.memberships[last].active && after.is_owner_at(last));
            } else {
                assert(store.organizations.contains_key(id));
                let i = choose|i: int|
                    0 <= i < store.memberships.len() && (#[trigger] store.memberships[i]).active
                        && store.memberships[i].organization_id == id && store.is_owner_at(i);
                assert(after.memberships[i] == store.memberships[i]);
                assert(after.is_owner_at(i));
            }
        }
        assert forall|id: Seq<char>| #[trigger] after.roles.contains_key(id) implies
            after.organizations.contains_key(after.roles[id].organization_id) by {
            if id != creation.owner_role_id {
                assert(store.roles.contains_key(id));
            }
        }
        assert forall|a: Seq<char>, b: Seq<char>|
            #![trigger after.organizations.contains_key(a), after.organizations.contains_key(b)]
            after.is_active(a) && after.is_active(b) && after.organizations[a].slug
                == after.organizations[b].slug implies a == b by {
            if a != creation.organization_id {
                assert(store.organizations.contains_key(a));
            }
            if b != creation.organization_id {
                assert(store.organizations.contains_key(b));
            }
        }
    }
}

/// Whatever the database replies, a creation succeeds only on a confirmed
/// commit, a commit is its last request, and each reply brings it closer to
/// its end.
pub proof fn law_creation_succeeds_only_on_a_commit(
    creation: Creation<Seq<char>>,
    reply: Reply<Seq<char>>,
)
    ensures
        creation.advanced(reply) matches Progress::Finish(Ok(Ok(_)))
            ==> creation.requested() is Commit && reply is Done,
        creation.requested() is Commit ==> creation.advanced(reply) is Finish,
        creation.advanced(reply) matches Progress::Continue(next) ==> next.remaining()
            < creation.remaining(),
{
}

/// On valid tables a creation fails exactly if it comes to use an identifier
/// that a row has already.
pub proof fn law_creation_fails_only_where_identifiers_repeat(
    store: Store,
    creation: Creation<Seq<char>>,
    started: int,
)
    requires
        store.valid(),
        creation.stage is Begin,
    ensures
        store.create(creation, started).1 is Err <==> store.organizations.contains_key(
            creation.organization_id,
        ) || (!store.slug_taken(creation.slug) && (store.roles.contains_key(
            creation.owner_role_id,
        ) || store.has_membership(creation.owner_membership_id))),
{
    law_creation_has_its_effect(store, creation, started);
}

/// A creation that does not succeed changes nothing.
pub proof fn law_refused_creation_changes_nothing(
    store: Store,
    creation: Creation<Seq<char>>,
    started: int,
)
    requires
        store.valid(),
        creation.stage is Begin,
        !(store.create(creation, started).1 matches Ok(Ok(_))),
    ensures
        store.create(creation, started).0 == store,
{
    law_creation_has_its_effect(store, creation, started);
}

/// Right after a creation the owner holds every owner permission and no other,
/// and no other subject holds any.
pub proof fn law_owner_holds_the_owner_permissions(
    store: Store,
    creation: Creation<Seq<char>>,
    started: int,
    subject: Seq<char>,
    permission: Seq<char>,
)
    requires
        store.valid(),
        creation.stage is Begin,
        store.create(creation, started).1 matches Ok(Ok(_)),
    ensures
        store.create(creation, started).0.access(creation.organization_id, subject, permission)
            == AccessOutcomeView::Ok(
            Ok(
                CheckPermissionResponse {
                    allowed: subject == creation.owner_subject
                        && statements::owner_permissions().contains(permission),
                },
            ),
        ),
{
    law_creation_has_its_effect(store, creation, started);
    let after = store.create(creation, started).0;
    let last = store.memberships.len() as int;
    assert forall|i: int| 0 <= i < last implies (
    #[trigger] after.memberships[i]).organization_id != creation.organization_id by {
        assert(after.memberships[i] == store.memberships[i]);
        assert(store.organizations.contains_key(store.memberships[i].organization_id));
    }
    assert(after.memberships[last].active && after.has_role_at(last));
}

/// A creation leaves the access to every other Organization as it was.
pub proof fn law_creation_leaves_other_access_alone(
    store: Store,
    creation: Creation<Seq<char>>,
    started: int,
    organization_id: Seq<char>,
    subject: Seq<char>,
    permission: Seq<char>,
)
    requires
        store.valid(),
        creation.stage is Begin,
        organization_id != creation.organization_id,
    ensures
        store.create(creation, started).0.access(organization_id, subject, permission)
            == store.access(organization_id, subject, permission),
{
    law_creation_has_its_effect(store, creation, started);
    let after = store.create(creation, started).0;
    if store.allows(organization_id, subject, permission) {
        let i = choose|i: int|
            0 <= i < store.memberships.len() && (#[trigger] store.memberships[i]).active
                && store.memberships[i].organization_id == organization_id
                && store.memberships[i].subject == subject && store.has_role_at(i)
                && store.roles[store.memberships[i].role_id].permissions.contains(permission);
        assert(after.memberships[i] == store.memberships[i]);
        assert(after.has_role_at(i));
    }
    if after.allows(organization_id, subject, permission) {
        let i = choose|i: int|
            0 <= i < after.memberships.len() && (#[trigger] after.memberships[i]).active
                && after.memberships[i].organization_id == organization_id
                && after.memberships[i].subject == subject && after.has_role_at(i)
                && after.roles[after.memberships[i].role_id].permissions.contains(permission);
        assert(after.memberships[i] == store.memberships[i]);
        assert(store.roles.contains_key(store.memberships[i].role_id));
        assert(store.has_role_at(i));
    }
}

/// Tables without a row are valid.
pub proof fn law_empty_tables_are_valid()
    ensures
        Store::empty().valid(),
{
}

} // verus!
