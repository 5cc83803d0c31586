//! What the statements do to the tables, as a mathematical model.
//!
//! The model is a reading of the SQL and of the constraints in the migrations,
//! and it is not tied to a running database. Here a transaction runs without
//! another in between; `overlap.rs` lets transactions overlap.
//!
//! A transaction has the time at which it started, which becomes the
//! `created_at` of the memberships that it inserts. Transactions need not end
//! in the order in which they started, so a membership that was inserted later
//! may be the older one by `created_at`.

use vstd::prelude::*;

use crate::postgres_plugin::creation::{Creation, CreationOutcomeView, CreationStage};
use crate::postgres_plugin::membership::{
    Addition, AdditionOutcomeView, AdditionStage, Removal, RemovalOutcomeView, RemovalStage,
};
use crate::postgres_plugin::statements::{
    Action, CommandRow, CreationRow, DirectoryRow, MemberRow, OwnedMemberRow, Reply,
    StandingRow, Statement,
};
use crate::transaction::Progress;

verus! {

/// A row of `organizations`.
#[verifier::ext_equal]
pub struct OrganizationRecord {
    pub name: Seq<char>,
    pub slug: Seq<char>,
    pub active: bool,
    pub revision: i64,
}

/// A row of `organization_memberships`.
#[verifier::ext_equal]
pub struct MembershipRecord {
    pub membership_id: Seq<char>,
    pub organization_id: Seq<char>,
    pub subject: Seq<char>,
    pub is_owner: bool,
    pub active: bool,
    pub revision: i64,
    /// When the transaction that inserted the row started.
    pub created_at: int,
}

/// A caller Instance and one of its idempotency keys.
pub type ReceiptKey = (Seq<char>, Seq<char>);

/// The tables. Memberships stand in the order in which they were inserted.
#[verifier::ext_equal]
pub struct Store {
    pub organizations: Map<Seq<char>, OrganizationRecord>,
    pub memberships: Seq<MembershipRecord>,
    pub creations: Map<ReceiptKey, CreationRow<Seq<char>>>,
    pub commands: Map<ReceiptKey, CommandRow<Seq<char>>>,
}

impl MembershipRecord {
    /// Whether the membership is of the subject in the Organization.
    pub open spec fn is_of(self, organization_id: Seq<char>, subject: Seq<char>) -> bool {
        self.organization_id == organization_id && self.subject == subject
    }
}

/// Whether no membership of the subject is newer than `found`, which is one of
/// them. Memberships with the same `created_at` are equally new.
pub open spec fn is_newest(
    memberships: Seq<MembershipRecord>,
    organization_id: Seq<char>,
    subject: Seq<char>,
    found: MembershipRecord,
) -> bool {
    &&& memberships.contains(found)
    &&& found.is_of(organization_id, subject)
    &&& forall|i: int|
        0 <= i < memberships.len() && (#[trigger] memberships[i]).is_of(organization_id, subject)
            ==> memberships[i].created_at <= found.created_at
}

/// Whether the membership at `i` is an active one of the subject.
pub open spec fn is_member_at(
    memberships: Seq<MembershipRecord>,
    i: int,
    organization_id: Seq<char>,
    subject: Seq<char>,
) -> bool {
    &&& 0 <= i < memberships.len()
    &&& memberships[i].active
    &&& memberships[i].is_of(organization_id, subject)
}

/// The active membership of the subject, if there is one.
pub open spec fn active_member(
    memberships: Seq<MembershipRecord>,
    organization_id: Seq<char>,
    subject: Seq<char>,
) -> Option<MembershipRecord> {
    if exists|i: int| is_member_at(memberships, i, organization_id, subject) {
        Some(memberships[choose|i: int| is_member_at(memberships, i, organization_id, subject)])
    } else {
        None
    }
}

/// The memberships after the active one with the given identifiers was
/// tombstoned.
pub open spec fn tombstoned(
    memberships: Seq<MembershipRecord>,
    organization_id: Seq<char>,
    membership_id: Seq<char>,
    revision: i64,
) -> Seq<MembershipRecord> {
    Seq::new(
        memberships.len(),
        |i: int|
            if memberships[i].active && memberships[i].organization_id == organization_id
                && memberships[i].membership_id == membership_id {
                MembershipRecord { active: false, revision, ..memberships[i] }
            } else {
                memberships[i]
            },
    )
}

impl Store {
    /// Tables without a row.
    pub open spec fn empty() -> Store {
        Store {
            organizations: Map::empty(),
            memberships: Seq::empty(),
            creations: Map::empty(),
            commands: Map::empty(),
        }
    }

    /// Whether an active Organization has the slug.
    pub open spec fn slug_taken(self, slug: Seq<char>) -> bool {
        exists|id: Seq<char>| #[trigger]
            self.organizations.contains_key(id) && self.organizations[id].active
                && self.organizations[id].slug == slug
    }

    /// Whether the Organization is stored and not archived.
    pub open spec fn is_active(self, organization_id: Seq<char>) -> bool {
        self.organizations.contains_key(organization_id)
            && self.organizations[organization_id].active
    }

    /// Whether a membership has the identifier.
    pub open spec fn has_membership(self, membership_id: Seq<char>) -> bool {
        exists|i: int|
            0 <= i < self.memberships.len() && (#[trigger] self.memberships[i]).membership_id
                == membership_id
    }

    /// The active membership of the subject, if there is one.
    pub open spec fn member(
        self,
        organization_id: Seq<char>,
        subject: Seq<char>,
    ) -> Option<MembershipRecord> {
        active_member(self.memberships, organization_id, subject)
    }

    /// The tables with one more membership.
    pub open spec fn with_membership(self, membership: MembershipRecord) -> Store {
        Store { memberships: self.memberships.push(membership), ..self }
    }

    /// The effect of a statement in a transaction that started at `started`,
    /// and the reply.
    pub open spec fn executed(self, statement: Statement<Seq<char>>, started: int) -> (
        Store,
        Reply<Seq<char>>,
    ) {
        match statement {
            Statement::ReserveCreation {
                caller_instance,
                idempotency_key,
                name,
                slug,
                owner_subject,
                organization_id,
                owner_membership_id,
            } => {
                let key = (caller_instance, idempotency_key);
                let row = CreationRow {
                    name,
                    slug,
                    owner_subject,
                    organization_id,
                    owner_membership_id,
                };
                if self.creations.contains_key(key) {
                    (self, Reply::RowsAffected(0))
                } else {
                    (
                        Store { creations: self.creations.insert(key, row), ..self },
                        Reply::RowsAffected(1),
                    )
                }
            },
            Statement::ReadCreation { caller_instance, idempotency_key } => {
                let key = (caller_instance, idempotency_key);
                if self.creations.contains_key(key) {
                    (self, Reply::Creation(self.creations[key]))
                } else {
                    (self, Reply::Failed { constraint: None })
                }
            },
            Statement::InsertOrganization { organization_id, name, slug } => {
                let record = OrganizationRecord { name, slug, active: true, revision: 1 };
                if self.organizations.contains_key(organization_id) {
                    (self, Reply::Failed { constraint: Some("organizations_pkey"@) })
                } else if self.slug_taken(slug) {
                    (self, Reply::Failed { constraint: Some("organizations_active_slug_key"@) })
                } else {
                    (
                        Store {
                            organizations: self.organizations.insert(organization_id, record),
                            ..self
                        },
                        Reply::RowsAffected(1),
                    )
                }
            },
            Statement::InsertOwner { membership_id, organization_id, subject } => self.inserted(
                MembershipRecord {
                    membership_id,
                    organization_id,
                    subject,
                    is_owner: true,
                    active: true,
                    revision: 1,
                    created_at: started,
                },
            ),
            Statement::ReserveCommand {
                caller_instance,
                idempotency_key,
                operation,
                organization_id,
                subject,
            } => {
                let key = (caller_instance, idempotency_key);
                let row = CommandRow {
                    operation,
                    organization_id,
                    subject,
                    membership_id: None,
                    result_revision: None,
                    changed: None,
                };
                if self.commands.contains_key(key) {
                    (self, Reply::RowsAffected(0))
                } else {
                    (
                        Store { commands: self.commands.insert(key, row), ..self },
                        Reply::RowsAffected(1),
                    )
                }
            },
            Statement::ReadCommand { caller_instance, idempotency_key } => {
                let key = (caller_instance, idempotency_key);
                if self.commands.contains_key(key) {
                    (self, Reply::Command(self.commands[key]))
                } else {
                    (self, Reply::Failed { constraint: None })
                }
            },
            Statement::CompleteCommand {
                caller_instance,
                idempotency_key,
                membership_id,
                revision,
                changed,
            } => {
                let key = (caller_instance, idempotency_key);
                if self.commands.contains_key(key) && self.commands[key].changed is None {
                    let row = CommandRow {
                        membership_id: Some(membership_id),
                        result_revision: Some(revision),
                        changed: Some(changed),
                        ..self.commands[key]
                    };
                    (
                        Store { commands: self.commands.insert(key, row), ..self },
                        Reply::RowsAffected(1),
                    )
                } else {
                    (self, Reply::RowsAffected(0))
                }
            },
            Statement::LockOrganization { organization_id } => (
                self,
                Reply::Organization(
                    if self.organizations.contains_key(organization_id) {
                        Some(self.organizations[organization_id].active)
                    } else {
                        None
                    },
                ),
            ),
            Statement::ReadMemberForAddition { organization_id, subject } => (
                self,
                Reply::Member(
                    match self.member(organization_id, subject) {
                        Some(member) => Some(
                            MemberRow {
                                membership_id: member.membership_id,
                                revision: member.revision,
                            },
                        ),
                        None => None,
                    },
                ),
            ),
            Statement::InsertMember { membership_id, organization_id, subject } => self.inserted(
                MembershipRecord {
                    membership_id,
                    organization_id,
                    subject,
                    is_owner: false,
                    active: true,
                    revision: 1,
                    created_at: started,
                },
            ),
            Statement::ReadMemberForRemoval { organization_id, subject } => (
                self,
                Reply::OwnedMember(
                    match self.member(organization_id, subject) {
                        Some(member) => Some(
                            OwnedMemberRow {
                                membership_id: member.membership_id,
                                is_owner: member.is_owner,
                                revision: member.revision,
                            },
                        ),
                        None => None,
                    },
                ),
            ),
            Statement::RemoveMember { organization_id, membership_id, revision } => {
                let memberships = tombstoned(
                    self.memberships,
                    organization_id,
                    membership_id,
                    revision,
                );
                (
                    Store { memberships, ..self },
                    Reply::RowsAffected(
                        if memberships == self.memberships {
                            0
                        } else {
                            1
                        },
                    ),
                )
            },
            Statement::GetOrganization { organization_id } => (
                self,
                Reply::Directory(self.directory_row(organization_id)),
            ),
            Statement::CheckMembership { organization_id, subject } => (
                self,
                Reply::Standing(
                    choose|row: StandingRow| self.may_find(organization_id, subject, row),
                ),
            ),
        }
    }

    /// The effect of inserting a membership, and the reply.
    pub open spec fn inserted(self, membership: MembershipRecord) -> (Store, Reply<Seq<char>>) {
        if self.has_membership(membership.membership_id) {
            (self, Reply::Failed { constraint: Some("organization_memberships_pkey"@) })
        } else if !self.organizations.contains_key(membership.organization_id) {
            (
                self,
                Reply::Failed {
                    constraint: Some("organization_memberships_organization_id_fkey"@),
                },
            )
        } else if self.member(membership.organization_id, membership.subject) is Some {
            (
                self,
                Reply::Failed {
                    constraint: Some("organization_memberships_active_subject_key"@),
                },
            )
        } else {
            (self.with_membership(membership), Reply::RowsAffected(1))
        }
    }

    /// The directory entry of an Organization, if it is stored.
    pub open spec fn directory_row(self, organization_id: Seq<char>) -> Option<
        DirectoryRow<Seq<char>>,
    > {
        if self.organizations.contains_key(organization_id) {
            let record = self.organizations[organization_id];
            Some(
                DirectoryRow {
                    name: record.name,
                    slug: record.slug,
                    active: record.active,
                    revision: record.revision,
                },
            )
        } else {
            None
        }
    }

    /// Whether the subject has or had a membership in the Organization.
    pub open spec fn has_memberships_of(
        self,
        organization_id: Seq<char>,
        subject: Seq<char>,
    ) -> bool {
        exists|i: int|
            0 <= i < self.memberships.len() && (#[trigger] self.memberships[i]).is_of(
                organization_id,
                subject,
            )
    }

    /// Whether a membership check may find the row. Each of its two columns on
    /// the membership is read from a newest one, and where several are equally
    /// new it is open which.
    pub open spec fn may_find(
        self,
        organization_id: Seq<char>,
        subject: Seq<char>,
        row: StandingRow,
    ) -> bool {
        &&& row.organization_exists == Some(self.is_active(organization_id))
        &&& if self.has_memberships_of(organization_id, subject) {
            &&& exists|found: MembershipRecord| #[trigger]
                is_newest(self.memberships, organization_id, subject, found) && row.active == Some(
                    found.active,
                )
            &&& exists|found: MembershipRecord| #[trigger]
                is_newest(self.memberships, organization_id, subject, found) && row.owner == Some(
                    found.is_owner && found.active,
                )
        } else {
            row.active == Some(false) && row.owner == Some(false)
        }
    }

    /// Whether the other memberships of the subject in the Organization are all
    /// older.
    pub open spec fn is_newer_than_others(self, member: MembershipRecord) -> bool {
        forall|i: int|
            0 <= i < self.memberships.len() && (#[trigger] self.memberships[i]).is_of(
                member.organization_id,
                member.subject,
            ) && self.memberships[i] != member ==> self.memberships[i].created_at
                < member.created_at
    }

    /// Whether another membership of the subject in the Organization is newer.
    pub open spec fn is_older_than_another(self, member: MembershipRecord) -> bool {
        exists|i: int|
            0 <= i < self.memberships.len() && (#[trigger] self.memberships[i]).is_of(
                member.organization_id,
                member.subject,
            ) && self.memberships[i].created_at > member.created_at
    }

    /// The tables after an Organization was archived by an operator.
    pub open spec fn archived(self, organization_id: Seq<char>, revision: i64) -> Store {
        if self.organizations.contains_key(organization_id) {
            let record = OrganizationRecord {
                active: false,
                revision,
                ..self.organizations[organization_id]
            };
            Store { organizations: self.organizations.insert(organization_id, record), ..self }
        } else {
            self
        }
    }

    /// The effect of an action of a transaction that started at `started`, and
    /// the reply.
    pub open spec fn acted(self, action: Action<Seq<char>>, started: int) -> (
        Store,
        Reply<Seq<char>>,
    ) {
        match action {
            Action::Begin => (self, Reply::Done),
            Action::Execute(statement) => self.executed(statement, started),
            Action::Commit => (self, Reply::Done),
        }
    }

    /// Whether at most the last of a subject's memberships in an Organization
    /// is active.
    pub open spec fn only_latest_active(self) -> bool {
        forall|i: int, j: int|
            #![trigger self.memberships[i], self.memberships[j]]
            0 <= i < j < self.memberships.len() && self.memberships[i].is_of(
                self.memberships[j].organization_id,
                self.memberships[j].subject,
            ) ==> !self.memberships[i].active
    }

    /// Whether every membership has an identifier of its own.
    pub open spec fn memberships_are_distinct(self) -> bool {
        forall|i: int, j: int|
            #![trigger self.memberships[i], self.memberships[j]]
            0 <= i < j < self.memberships.len() ==> self.memberships[i].membership_id
                != self.memberships[j].membership_id
    }

    /// Whether every membership belongs to a stored Organization.
    pub open spec fn memberships_have_organizations(self) -> bool {
        forall|i: int|
            0 <= i < self.memberships.len() ==> self.organizations.contains_key(
                (#[trigger] self.memberships[i]).organization_id,
            )
    }

    /// Whether no two active Organizations share a slug.
    pub open spec fn active_slugs_are_distinct(self) -> bool {
        forall|a: Seq<char>, b: Seq<char>|
            #![trigger self.organizations.contains_key(a), self.organizations.contains_key(b)]
            self.is_active(a) && self.is_active(b) && self.organizations[a].slug
                == self.organizations[b].slug ==> a == b
    }

    /// Whether the Organization has an active owner.
    pub open spec fn has_owner(self, organization_id: Seq<char>) -> bool {
        exists|i: int|
            0 <= i < self.memberships.len() && (#[trigger] self.memberships[i]).organization_id
                == organization_id && self.memberships[i].is_owner && self.memberships[i].active
    }

    /// Whether every active Organization has an active owner.
    pub open spec fn active_organizations_have_owners(self) -> bool {
        forall|id: Seq<char>| #[trigger]
            self.organizations.contains_key(id) && self.organizations[id].active ==> self.has_owner(
                id,
            )
    }

    /// Whether every creation receipt names a stored Organization and a stored
    /// membership.
    pub open spec fn creations_keep_references(self) -> bool {
        forall|key: ReceiptKey| #[trigger]
            self.creations.contains_key(key) ==> self.organizations.contains_key(
                self.creations[key].organization_id,
            ) && self.has_membership(self.creations[key].owner_membership_id)
    }

    /// Whether every command receipt holds a result.
    pub open spec fn commands_are_complete(self) -> bool {
        forall|key: ReceiptKey| #[trigger]
            self.commands.contains_key(key) ==> self.commands[key].membership_id is Some
                && self.commands[key].result_revision is Some && self.commands[key].changed is Some
    }

    /// What holds of the tables between two transactions.
    pub open spec fn valid(self) -> bool {
        &&& self.only_latest_active()
        &&& self.memberships_are_distinct()
        &&& self.memberships_have_organizations()
        &&& self.active_slugs_are_distinct()
        &&& self.active_organizations_have_owners()
        &&& self.creations_keep_references()
        &&& self.commands_are_complete()
    }
}

impl<S> Creation<S> {
    /// How many requests are left at most.
    pub open spec fn remaining(self) -> nat {
        match self.stage {
            CreationStage::Begin => 5,
            CreationStage::Reserve => 4,
            CreationStage::ReadReplay => 3,
            CreationStage::CommitReplay { .. } => 2,
            CreationStage::InsertOrganization => 3,
            CreationStage::InsertOwner => 2,
            CreationStage::Commit => 1,
        }
    }
}

impl<S> Addition<S> {
    /// How many requests are left at most.
    pub open spec fn remaining(self) -> nat {
        match self.stage {
            AdditionStage::Begin => 7,
            AdditionStage::Reserve => 6,
            AdditionStage::ReadReplay => 5,
            AdditionStage::CommitReplay { .. } => 4,
            AdditionStage::LockOrganization => 5,
            AdditionStage::ReadMember => 4,
            AdditionStage::InsertMember => 3,
            AdditionStage::Complete { .. } => 2,
            AdditionStage::Commit { .. } => 1,
        }
    }
}

impl<S> Removal<S> {
    /// How many requests are left at most.
    pub open spec fn remaining(self) -> nat {
        match self.stage {
            RemovalStage::Begin => 7,
            RemovalStage::Reserve => 6,
            RemovalStage::ReadReplay => 5,
            RemovalStage::CommitReplay { .. } => 4,
            RemovalStage::LockOrganization => 5,
            RemovalStage::ReadMember => 4,
            RemovalStage::RemoveMember { .. } => 3,
            RemovalStage::Complete { .. } => 2,
            RemovalStage::Commit { .. } => 1,
        }
    }
}

/// Runs a creation to its end. `before` is what a rollback restores.
pub open spec fn run_creation(
    creation: Creation<Seq<char>>,
    started: int,
    before: Store,
    current: Store,
) -> (Store, CreationOutcomeView)
    decreases creation.remaining(),
{
    let (store, reply) = current.acted(creation.requested(), started);
    match creation.advanced(reply) {
        Progress::Continue(next) => run_creation(next, started, before, store),
        Progress::Finish(outcome) => (
            if creation.requested() is Commit {
                store
            } else {
                before
            },
            outcome,
        ),
    }
}

/// Runs an addition to its end. `before` is what a rollback restores.
pub open spec fn run_addition(
    addition: Addition<Seq<char>>,
    started: int,
    before: Store,
    current: Store,
) -> (Store, AdditionOutcomeView)
    decreases addition.remaining(),
{
    let (store, reply) = current.acted(addition.requested(), started);
    match addition.advanced(reply) {
        Progress::Continue(next) => run_addition(next, started, before, store),
        Progress::Finish(outcome) => (
            if addition.requested() is Commit {
                store
            } else {
                before
            },
            outcome,
        ),
    }
}

/// Runs a removal to its end. `before` is what a rollback restores.
pub open spec fn run_removal(
    removal: Removal<Seq<char>>,
    started: int,
    before: Store,
    current: Store,
) -> (Store, RemovalOutcomeView)
    decreases removal.remaining(),
{
    let (store, reply) = current.acted(removal.requested(), started);
    match removal.advanced(reply) {
        Progress::Continue(next) => run_removal(next, started, before, store),
        Progress::Finish(outcome) => (
            if removal.requested() is Commit {
                store
            } else {
                before
            },
            outcome,
        ),
    }
}

impl Store {
    /// The tables after a creation, and how it ends.
    pub open spec fn create(self, creation: Creation<Seq<char>>, started: int) -> (
        Store,
        CreationOutcomeView,
    ) {
        run_creation(creation, started, self, self)
    }

    /// The tables after an addition, and how it ends.
    pub open spec fn add(self, addition: Addition<Seq<char>>, started: int) -> (
        Store,
        AdditionOutcomeView,
    ) {
        run_addition(addition, started, self, self)
    }

    /// The tables after a removal, and how it ends.
    pub open spec fn remove(self, removal: Removal<Seq<char>>, started: int) -> (
        Store,
        RemovalOutcomeView,
    ) {
        run_removal(removal, started, self, self)
    }
}

} // verus!
