//! What the Module's statements do to its tables, as a mathematical model.
//!
//! The model is a reading of the SQL and of the constraints in the migration.
//! It runs one transaction after another, and it is not tied to a running
//! database.

use vstd::prelude::*;

use crate::postgres_module::creation::{Creation, CreationOutcomeView, CreationStage};
use crate::postgres_module::statements;
use crate::postgres_module::statements::{AccessRow, Action, Reply, Statement};
use crate::postgres_plugin::store::OrganizationRecord;
use crate::transaction::Progress;

verus! {

/// A row of `organization_roles`. The owner role is the one with the system
/// key `owner`.
#[verifier::ext_equal]
pub struct RoleRecord {
    pub organization_id: Seq<char>,
    pub permissions: Seq<Seq<char>>,
    pub is_owner: bool,
}

/// A row of `organization_memberships`.
#[verifier::ext_equal]
pub struct MembershipRecord {
    pub membership_id: Seq<char>,
    pub organization_id: Seq<char>,
    pub subject: Seq<char>,
    pub role_id: Seq<char>,
    pub active: bool,
    pub revision: i64,
    /// When the transaction that inserted the row started.
    pub created_at: int,
}

/// The tables. Memberships stand in the order in which they were inserted.
#[verifier::ext_equal]
pub struct Store {
    pub organizations: Map<Seq<char>, OrganizationRecord>,
    pub roles: Map<Seq<char>, RoleRecord>,
    pub memberships: Seq<MembershipRecord>,
}

impl Store {
    /// Tables without a row.
    pub open spec fn empty() -> Store {
        Store { organizations: Map::empty(), roles: Map::empty(), memberships: Seq::empty() }
    }

    /// Whether an active Organization has the slug.
    pub open spec fn slug_taken(self, slug: Seq<char>) -> bool {
        exists|id: Seq<char>| #[trigger]
            self.organizations.contains_key(id) && self.organizations[id].active
                && self.organizations[id].slug == slug
    }

    /// Whether the Organization is stored and not archived.
    pub open spec fn is_active(self, organization_id: Seq<char>) -> bool {
        self.organizations.contains_key(organization_id)
            && self.organizations[organization_id].active
    }

    /// Whether a membership has the identifier.
    pub open spec fn has_membership(self, membership_id: Seq<char>) -> bool {
        exists|i: int|
            0 <= i < self.memberships.len() && (#[trigger] self.memberships[i]).membership_id
                == membership_id
    }

    /// Whether the subject has an active membership in the Organization.
    pub open spec fn has_member(self, organization_id: Seq<char>, subject: Seq<char>) -> bool {
        exists|i: int|
            0 <= i < self.memberships.len() && (#[trigger] self.memberships[i]).active
                && self.memberships[i].organization_id == organization_id
                && self.memberships[i].subject == subject
    }

    /// Whether the membership at `i` has a role of its own Organization.
    pub open spec fn has_role_at(self, i: int) -> bool {
        &&& self.roles.contains_key(self.memberships[i].role_id)
        &&& self.roles[self.memberships[i].role_id].organization_id
            == self.memberships[i].organization_id
    }

    /// Whether the membership at `i` has the owner role of its Organization.
    pub open spec fn is_owner_at(self, i: int) -> bool {
        self.has_role_at(i) && self.roles[self.memberships[i].role_id].is_owner
    }

    /// Whether an active membership of the subject has a role of the same
    /// Organization with the permission.
    pub open spec fn allows(
        self,
        organization_id: Seq<char>,
        subject: Seq<char>,
        permission: Seq<char>,
    ) -> bool {
        exists|i: int|
            0 <= i < self.memberships.len() && (#[trigger] self.memberships[i]).active
                && self.memberships[i].organization_id == organization_id
                && self.memberships[i].subject == subject && self.has_role_at(i)
                && self.roles[self.memberships[i].role_id].permissions.contains(permission)
    }

    /// Whether the Organization has an active member with its owner role.
    pub open spec fn has_owner(self, organization_id: Seq<char>) -> bool {
        exists|i: int|
            0 <= i < self.memberships.len() && (#[trigger] self.memberships[i]).active
                && self.memberships[i].organization_id == organization_id && self.is_owner_at(i)
    }

    /// The effect of a statement in a transaction that started at `started`,
    /// and the reply.
    pub open spec fn executed(self, statement: Statement<Seq<char>>, started: int) -> (
        Store,
        Reply<Seq<char>>,
    ) {
        match statement {
            Statement::InsertOrganization { organization_id, name, slug } => {
                let record = OrganizationRecord { name, slug, active: true, revision: 1 };
                if self.organizations.contains_key(organization_id) {
                    (self, Reply::Failed { constraint: Some("organizations_pkey"@) })
                } else if self.slug_taken(slug) {
                    (self, Reply::Failed { constraint: Some("organizations_active_slug_key"@) })
                } else {
                    (
                        Store {
                            organizations: self.organizations.insert(organization_id, record),
                            ..self
                        },
                        Reply::RowsAffected(1),
                    )
                }
            },
            Statement::InsertOwnerRole { role_id, organization_id } => {
                let record = RoleRecord {
                    organization_id,
                    permissions: statements::owner_permissions(),
                    is_owner: true,
                };
                if self.roles.contains_key(role_id) {
                    (self, Reply::Failed { constraint: Some("organization_roles_pkey"@) })
                } else if !self.organizations.contains_key(organization_id) {
                    (
                        self,
                        Reply::Failed {
                            constraint: Some("organization_roles_organization_id_fkey"@),
                        },
                    )
                } else {
                    (
                        Store { roles: self.roles.insert(role_id, record), ..self },
                        Reply::RowsAffected(1),
                    )
                }
            },
            Statement::InsertMembership { membership_id, organization_id, subject, role_id } => {
                let record = MembershipRecord {
                    membership_id,
                    organization_id,
                    subject,
                    role_id,
                    active: true,
                    revision: 1,
                    created_at: started,
                };
                if self.has_membership(membership_id) {
                    (self, Reply::Failed { constraint: Some("organization_memberships_pkey"@) })
                } else if !self.organizations.contains_key(organization_id) {
                    (
                        self,
                        Reply::Failed {
                            constraint: Some("organization_memberships_organization_id_fkey"@),
                        },
                    )
                } else if !self.roles.contains_key(role_id) {
                    (
                        self,
                        Reply::Failed {
                            constraint: Some("organization_memberships_role_id_fkey"@),
                        },
                    )
                } else if self.has_member(organization_id, subject) {
                    (
                        self,
                        Reply::Failed {
                            constraint: Some("organization_memberships_active_subject_key"@),
                        },
                    )
                } else {
                    (
                        Store { memberships: self.memberships.push(record), ..self },
                        Reply::RowsAffected(1),
                    )
                }
            },
            Statement::CheckPermission { organization_id, subject, permission } => (
                self,
                Reply::Access(self.access_row(organization_id, subject, permission)),
            ),
        }
    }

    /// What a permission check finds.
    pub open spec fn access_row(
        self,
        organization_id: Seq<char>,
        subject: Seq<char>,
        permission: Seq<char>,
    ) -> AccessRow {
        AccessRow {
            organization_exists: Some(self.is_active(organization_id)),
            allowed: Some(self.allows(organization_id, subject, permission)),
        }
    }

    /// The effect of an action of a transaction that started at `started`, and
    /// the reply.
    pub open spec fn acted(self, action: Action<Seq<char>>, started: int) -> (
        Store,
        Reply<Seq<char>>,
    ) {
        match action {
            Action::Begin => (self, Reply::Done),
            Action::Execute(statement) => self.executed(statement, started),
            Action::Commit => (self, Reply::Done),
        }
    }

    /// What holds of the tables between two transactions: identifiers are
    /// distinct, references hold, at most the last of a subject's memberships
    /// in an Organization is active, active slugs are distinct, and every
    /// active Organization has an owner.
    pub open spec fn valid(self) -> bool {
        &&& forall|i: int, j: int|
            #![trigger self.memberships[i], self.memberships[j]]
            0 <= i < j < self.memberships.len() ==> self.memberships[i].membership_id
                != self.memberships[j].membership_id
        &&& forall|i: int|
            0 <= i < self.memberships.len() ==> self.organizations.contains_key(
                (#[trigger] self.memberships[i]).organization_id,
            ) && self.roles.contains_key(self.memberships[i].role_id)
        &&& forall|i: int, j: int|
            #![trigger self.memberships[i], self.memberships[j]]
            0 <= i < j < self.memberships.len() && self.memberships[i].organization_id
                == self.memberships[j].organization_id && self.memberships[i].subject
                == self.memberships[j].subject ==> !self.memberships[i].active
        &&& forall|id: Seq<char>| #[trigger]
            self.roles.contains_key(id) ==> self.organizations.contains_key(
                self.roles[id].organization_id,
            )
        &&& forall|a: Seq<char>, b: Seq<char>|
            #![trigger self.organizations.contains_key(a), self.organizations.contains_key(b)]
            self.is_active(a) && self.is_active(b) && self.organizations[a].slug
                == self.organizations[b].slug ==> a == b
        &&& forall|id: Seq<char>| #[trigger]
            self.organizations.contains_key(id) && self.organizations[id].active ==> self.has_owner(
                id,
            )
    }
}

impl<S> Creation<S> {
    /// How many requests are left at most.
    pub open spec fn remaining(self) -> nat {
        match self.stage {
            CreationStage::Begin => 5,
            CreationStage::InsertOrganization => 4,
            CreationStage::InsertOwnerRole => 3,
            CreationStage::InsertOwner => 2,
            CreationStage::Commit => 1,
        }
    }
}

/// Runs a creation to its end. `before` is what a rollback restores.
pub open spec fn run_creation(
    creation: Creation<Seq<char>>,
    started: int,
    before: Store,
    current: Store,
) -> (Store, CreationOutcomeView)
    decreases creation.remaining(),
{
    let (store, reply) = current.acted(creation.requested(), started);
    match creation.advanced(reply) {
        Progress::Continue(next) => run_creation(next, started, before, store),
        Progress::Finish(outcome) => (
            if creation.requested() is Commit {
                store
            } else {
                before
            },
            outcome,
        ),
    }
}

impl Store {
    /// The tables after a creation, and how it ends.
    pub open spec fn create(self, creation: Creation<Seq<char>>, started: int) -> (
        Store,
        CreationOutcomeView,
    ) {
        run_creation(creation, started, self, self)
    }
}

} // verus!
