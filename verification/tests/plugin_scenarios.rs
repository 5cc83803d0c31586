//! Whole operations of the Plugin, run against tables in memory.

use std::collections::HashMap;

use lenso_organization::contracts::{
    AddMemberError, AddMemberRequest, AddMemberResponse, CheckMembershipError,
    CheckMembershipRequest, CheckMembershipResponse, CreateOrganizationError,
    CreateOrganizationRequest, CreateOrganizationResponse, GetOrganizationError,
    GetOrganizationRequest, GetOrganizationResponse, RemoveMemberError, RemoveMemberRequest,
    RemoveMemberResponse,
};
use lenso_organization::failure::RuntimeFailure;
use lenso_organization::postgres_plugin::creation::Creation;
use lenso_organization::postgres_plugin::membership::{Addition, Removal};
use lenso_organization::postgres_plugin::provider::OrganizationProvider;
use lenso_organization::postgres_plugin::queries::{directory_answer, standing_answer};
use lenso_organization::postgres_plugin::statements::{
    Action, CommandRow, CreationRow, DirectoryRow, MemberRow, OwnedMemberRow, Reply, StandingRow,
    Statement,
};
use lenso_organization::transaction::Progress;

#[derive(Clone)]
struct Organization {
    name: String,
    slug: String,
    active: bool,
    revision: i64,
}

#[derive(Clone)]
struct Membership {
    membership_id: String,
    organization_id: String,
    subject: String,
    is_owner: bool,
    active: bool,
    revision: i64,
    created_at: u64,
}

#[derive(Clone, Default)]
struct Tables {
    organizations: HashMap<String, Organization>,
    memberships: Vec<Membership>,
    creations: HashMap<(String, String), CreationRow>,
    commands: HashMap<(String, String), CommandRow>,
}

impl Tables {
    fn member(&self, organization_id: &str, subject: &str) -> Option<&Membership> {
        self.memberships.iter().find(|membership| {
            membership.active
                && membership.organization_id == organization_id
                && membership.subject == subject
        })
    }

    fn insert(&mut self, membership: Membership) -> Reply {
        if self
            .member(&membership.organization_id, &membership.subject)
            .is_some()
        {
            return Reply::Failed {
                constraint: Some("organization_memberships_active_subject_key".to_owned()),
            };
        }
        self.memberships.push(membership);
        Reply::RowsAffected(1)
    }

    fn execute(&mut self, statement: Statement, started: u64) -> Reply {
        match statement {
            Statement::ReserveCreation {
                caller_instance,
                idempotency_key,
                name,
                slug,
                owner_subject,
                organization_id,
                owner_membership_id,
            } => {
                let key = (caller_instance, idempotency_key);
                if self.creations.contains_key(&key) {
                    return Reply::RowsAffected(0);
                }
                self.creations.insert(
                    key,
                    CreationRow {
                        name,
                        slug,
                        owner_subject,
                        organization_id,
                        owner_membership_id,
                    },
                );
                Reply::RowsAffected(1)
            }
            Statement::ReadCreation {
                caller_instance,
                idempotency_key,
            } => match self.creations.get(&(caller_instance, idempotency_key)) {
                Some(row) => Reply::Creation(row.clone()),
                None => Reply::Failed { constraint: None },
            },
            Statement::InsertOrganization {
                organization_id,
                name,
                slug,
            } => {
                if self
                    .organizations
                    .values()
                    .any(|organization| organization.active && organization.slug == slug)
                {
                    return Reply::Failed {
                        constraint: Some("organizations_active_slug_key".to_owned()),
                    };
                }
                self.organizations.insert(
                    organization_id,
                    Organization {
                        name,
                        slug,
                        active: true,
                        revision: 1,
                    },
                );
                Reply::RowsAffected(1)
            }
            Statement::InsertOwner {
                membership_id,
                organization_id,
                subject,
            } => self.insert(Membership {
                membership_id,
                organization_id,
                subject,
                is_owner: true,
                active: true,
                revision: 1,
                created_at: started,
            }),
            Statement::ReserveCommand {
                caller_instance,
                idempotency_key,
                operation,
                organization_id,
                subject,
            } => {
                let key = (caller_instance, idempotency_key);
                if self.commands.contains_key(&key) {
                    return Reply::RowsAffected(0);
                }
                self.commands.insert(
                    key,
                    CommandRow {
                        operation,
                        organization_id,
                        subject,
                        membership_id: None,
                        result_revision: None,
                        changed: None,
                    },
                );
                Reply::RowsAffected(1)
            }
            Statement::ReadCommand {
                caller_instance,
                idempotency_key,
            } => match self.commands.get(&(caller_instance, idempotency_key)) {
                Some(row) => Reply::Command(row.clone()),
                None => Reply::Failed { constraint: None },
            },
            Statement::CompleteCommand {
                caller_instance,
                idempotency_key,
                membership_id,
                revision,
                changed,
            } => match self.commands.get_mut(&(caller_instance, idempotency_key)) {
                Some(row) if row.changed.is_none() => {
                    row.membership_id = Some(membership_id);
                    row.result_revision = Some(revision);
                    row.changed = Some(changed);
                    Reply::RowsAffected(1)
                }
                _ => Reply::RowsAffected(0),
            },
            Statement::LockOrganization { organization_id } => Reply::Organization(
                self.organizations
                    .get(&organization_id)
                    .map(|organization| organization.active),
            ),
            Statement::ReadMemberForAddition {
                organization_id,
                subject,
            } => Reply::Member(
                self.member(&organization_id, &subject)
                    .map(|membership| MemberRow {
                        membership_id: membership.membership_id.clone(),
                        revision: membership.revision,
                    }),
            ),
            Statement::InsertMember {
                membership_id,
                organization_id,
                subject,
            } => self.insert(Membership {
                membership_id,
                organization_id,
                subject,
                is_owner: false,
                active: true,
                revision: 1,
                created_at: started,
            }),
            Statement::ReadMemberForRemoval {
                organization_id,
                subject,
            } => Reply::OwnedMember(self.member(&organization_id, &subject).map(|membership| {
                OwnedMemberRow {
                    membership_id: membership.membership_id.clone(),
                    is_owner: membership.is_owner,
                    revision: membership.revision,
                }
            })),
            Statement::RemoveMember {
                organization_id,
                membership_id,
                revision,
            } => {
                let mut count: u64 = 0;
                for membership in &mut self.memberships {
                    if membership.active
                        && membership.organization_id == organization_id
                        && membership.membership_id == membership_id
                    {
                        membership.active = false;
                        membership.revision = revision;
                        count += 1;
                    }
                }
                Reply::RowsAffected(count)
            }
            Statement::GetOrganization { organization_id } => Reply::Directory(
                self.organizations
                    .get(&organization_id)
                    .map(|organization| DirectoryRow {
                        name: organization.name.clone(),
                        slug: organization.slug.clone(),
                        active: organization.active,
                        revision: organization.revision,
                    }),
            ),
            Statement::CheckMembership {
                organization_id,
                subject,
            } => {
                let latest = self
                    .memberships
                    .iter()
                    .filter(|membership| {
                        membership.organization_id == organization_id
                            && membership.subject == subject
                    })
                    .max_by_key(|membership| membership.created_at);
                Reply::Standing(StandingRow {
                    organization_exists: Some(
                        self.organizations
                            .get(&organization_id)
                            .is_some_and(|organization| organization.active),
                    ),
                    active: Some(latest.is_some_and(|membership| membership.active)),
                    owner: Some(
                        latest.is_some_and(|membership| membership.active && membership.is_owner),
                    ),
                })
            }
        }
    }
}

/// When a transaction started and what it has executed.
#[derive(Default)]
struct Transaction {
    started: u64,
    executed: Vec<Statement>,
}

impl Transaction {
    /// The committed tables with what the transaction wrote.
    fn sees(&self, committed: &Tables) -> Tables {
        let mut tables = committed.clone();
        for statement in &self.executed {
            tables.execute(statement.clone(), self.started);
        }
        tables
    }
}

/// The committed tables, the time, and how many requests reach them before the
/// connection is lost.
struct Database {
    committed: Tables,
    now: u64,
    requests_left: Option<usize>,
}

impl Database {
    fn new() -> Database {
        Database {
            committed: Tables::default(),
            now: 0,
            requests_left: None,
        }
    }

    fn act(&mut self, transaction: &mut Transaction, action: Action) -> Reply {
        if let Some(left) = self.requests_left.as_mut() {
            if *left == 0 {
                return Reply::Failed { constraint: None };
            }
            *left -= 1;
        }
        match action {
            Action::Begin => {
                self.now += 1;
                transaction.started = self.now;
                Reply::Done
            }
            Action::Execute(statement) => {
                let mut tables = transaction.sees(&self.committed);
                transaction.executed.push(statement.clone());
                tables.execute(statement, transaction.started)
            }
            Action::Commit => {
                self.committed = transaction.sees(&self.committed);
                Reply::Done
            }
        }
    }

    fn create(
        &mut self,
        provider: &OrganizationProvider,
        caller: &str,
        request: CreateOrganizationRequest,
    ) -> Result<Result<CreateOrganizationResponse, CreateOrganizationError>, RuntimeFailure> {
        let mut transaction = Transaction::default();
        let mut progress = provider.create_organization(Some(caller), true, request);
        loop {
            match progress {
                Progress::Continue(creation) => {
                    let reply = self.act(&mut transaction, creation.action());
                    progress = creation.advance(reply);
                }
                Progress::Finish(outcome) => return outcome,
            }
        }
    }

    fn add(
        &mut self,
        provider: &OrganizationProvider,
        caller: &str,
        request: AddMemberRequest,
    ) -> Result<Result<AddMemberResponse, AddMemberError>, RuntimeFailure> {
        let mut transaction = Transaction::default();
        let mut progress = provider.add_member(Some(caller), true, request);
        loop {
            match progress {
                Progress::Continue(addition) => {
                    let reply = self.act(&mut transaction, addition.action());
                    progress = addition.advance(reply);
                }
                Progress::Finish(outcome) => return outcome,
            }
        }
    }

    fn remove(
        &mut self,
        provider: &OrganizationProvider,
        caller: &str,
        request: RemoveMemberRequest,
    ) -> Result<Result<RemoveMemberResponse, RemoveMemberError>, RuntimeFailure> {
        let mut transaction = Transaction::default();
        let mut progress = provider.remove_member(Some(caller), true, request);
        loop {
            match progress {
                Progress::Continue(removal) => {
                    let reply = self.act(&mut transaction, removal.action());
                    progress = removal.advance(reply);
                }
                Progress::Finish(outcome) => return outcome,
            }
        }
    }

    fn check(
        &mut self,
        provider: &OrganizationProvider,
        organization_id: &str,
        subject: &str,
    ) -> Result<Result<CheckMembershipResponse, CheckMembershipError>, RuntimeFailure> {
        let request = CheckMembershipRequest {
            organization_id: organization_id.to_owned(),
            subject: subject.to_owned(),
        };
        match provider.check_membership(true, &request) {
            Progress::Continue(statement) => standing_answer(self.committed.execute(statement, self.now)),
            Progress::Finish(outcome) => outcome,
        }
    }

    fn get(
        &mut self,
        provider: &OrganizationProvider,
        organization_id: &str,
    ) -> Result<Result<GetOrganizationResponse, GetOrganizationError>, RuntimeFailure> {
        let request = GetOrganizationRequest {
            organization_id: organization_id.to_owned(),
        };
        match provider.get_organization(Some("directory-consumer"), true, &request) {
            Progress::Continue(statement) => {
                directory_answer(request, self.committed.execute(statement, self.now))
            }
            Progress::Finish(outcome) => outcome,
        }
    }
}

/// A transaction of its own that can be taken on request by request.
struct Overlapping<T, O> {
    transaction: Transaction,
    progress: Option<Progress<T, O>>,
}

impl<T, O> Overlapping<T, O> {
    fn new(progress: Progress<T, O>) -> Overlapping<T, O> {
        Overlapping {
            transaction: Transaction::default(),
            progress: Some(progress),
        }
    }

    /// Serves as many requests as are given, or fewer where the transaction
    /// ends before.
    fn serve(
        &mut self,
        database: &mut Database,
        requests: usize,
        action: impl Fn(&T) -> Action,
        advance: impl Fn(T, Reply) -> Progress<T, O>,
    ) {
        for _ in 0..requests {
            self.progress = match self.progress.take() {
                Some(Progress::Continue(machine)) => {
                    let reply = database.act(&mut self.transaction, action(&machine));
                    Some(advance(machine, reply))
                }
                ended => ended,
            };
        }
    }

    fn outcome(self) -> O {
        match self.progress {
            Some(Progress::Finish(outcome)) => outcome,
            _ => panic!("the transaction still runs"),
        }
    }
}

fn provider() -> OrganizationProvider {
    OrganizationProvider {
        admin_callers: vec!["business-admin".to_owned(), "second-admin".to_owned()],
        directory_callers: vec!["directory-consumer".to_owned()],
        membership_admin_callers: vec![
            "membership-admin".to_owned(),
            "second-membership-admin".to_owned(),
        ],
    }
}

fn create_request(key: &str, name: &str, owner: &str, slug: &str) -> CreateOrganizationRequest {
    CreateOrganizationRequest {
        idempotency_key: key.to_owned(),
        name: name.to_owned(),
        owner_subject: owner.to_owned(),
        slug: slug.to_owned(),
    }
}

fn add_request(key: &str, organization_id: &str, subject: &str) -> AddMemberRequest {
    AddMemberRequest {
        idempotency_key: key.to_owned(),
        organization_id: organization_id.to_owned(),
        subject: subject.to_owned(),
    }
}

fn remove_request(key: &str, organization_id: &str, subject: &str) -> RemoveMemberRequest {
    RemoveMemberRequest {
        idempotency_key: key.to_owned(),
        organization_id: organization_id.to_owned(),
        subject: subject.to_owned(),
    }
}

fn failure(detail: &str) -> RuntimeFailure {
    RuntimeFailure::PluginFailure {
        detail: detail.to_owned(),
    }
}

#[test]
fn concurrent_create_is_caller_scoped_idempotent_and_preserves_ownership() {
    let mut database = Database::new();
    let provider = provider();
    let request = create_request("create-acme", "Acme", "usr_owner", "acme");
    let begin = || {
        Overlapping::new(provider.create_organization(
            Some("business-admin"),
            true,
            request.clone(),
        ))
    };
    let mut first_creation = begin();
    let mut concurrent_replay = begin();
    first_creation.serve(&mut database, 1, Creation::action, Creation::advance);
    concurrent_replay.serve(&mut database, 1, Creation::action, Creation::advance);
    first_creation.serve(&mut database, 4, Creation::action, Creation::advance);
    concurrent_replay.serve(&mut database, 4, Creation::action, Creation::advance);
    let first_creation = first_creation.outcome().unwrap().unwrap();
    let concurrent_replay = concurrent_replay.outcome().unwrap().unwrap();
    assert_ne!(first_creation.created, concurrent_replay.created);
    assert_eq!(
        first_creation.organization_id,
        concurrent_replay.organization_id
    );
    assert_eq!(
        first_creation.owner_membership_id,
        concurrent_replay.owner_membership_id
    );
    let created = if first_creation.created {
        first_creation
    } else {
        concurrent_replay
    };
    let membership = database
        .check(&provider, &created.organization_id, "usr_owner")
        .unwrap()
        .unwrap();
    assert!(membership.active);
    assert!(membership.owner);

    let replay = database
        .create(&provider, "business-admin", request.clone())
        .unwrap()
        .unwrap();
    assert!(!replay.created);
    assert_eq!(replay.organization_id, created.organization_id);
    assert_eq!(replay.owner_membership_id, created.owner_membership_id);

    let conflict = database
        .create(
            &provider,
            "business-admin",
            CreateOrganizationRequest {
                owner_subject: "usr_other".to_owned(),
                ..request
            },
        )
        .unwrap();
    assert_eq!(conflict, Err(CreateOrganizationError::IdempotencyConflict));

    let second_caller = database
        .create(
            &provider,
            "second-admin",
            create_request("create-acme", "Second", "usr_second", "second"),
        )
        .unwrap()
        .unwrap();
    assert!(second_caller.created);
    assert_ne!(second_caller.organization_id, created.organization_id);

    let duplicate = database
        .create(
            &provider,
            "business-admin",
            create_request("create-another-acme", "Another Acme", "usr_other", "acme"),
        )
        .unwrap();
    assert_eq!(duplicate, Err(CreateOrganizationError::SlugConflict));
}

#[test]
fn membership_admin_is_caller_scoped_idempotent_and_owner_safe() {
    let mut database = Database::new();
    let provider = provider();
    let organization = database
        .create(
            &provider,
            "business-admin",
            create_request(
                "create-membership-test",
                "Membership Test",
                "usr_owner",
                "membership-test",
            ),
        )
        .unwrap()
        .unwrap();
    let organization_id = organization.organization_id.as_str();
    let directory_entry = database.get(&provider, organization_id).unwrap().unwrap();
    assert!(directory_entry.active);
    assert_eq!(directory_entry.name, "Membership Test");
    assert_eq!(directory_entry.slug, "membership-test");
    assert_eq!(directory_entry.revision, "1");

    let missing_directory_entry = database.get(&provider, "org_missing").unwrap();
    assert_eq!(
        missing_directory_entry,
        Err(GetOrganizationError::OrganizationNotFound)
    );

    let add = add_request("add-primary-member", organization_id, "usr_member");
    let begin = || {
        Overlapping::new(provider.add_member(Some("membership-admin"), true, add.clone()))
    };
    let mut first_add = begin();
    let mut concurrent_replay = begin();
    first_add.serve(&mut database, 1, Addition::action, Addition::advance);
    concurrent_replay.serve(&mut database, 1, Addition::action, Addition::advance);
    first_add.serve(&mut database, 6, Addition::action, Addition::advance);
    concurrent_replay.serve(&mut database, 3, Addition::action, Addition::advance);
    let first_add = first_add.outcome().unwrap().unwrap();
    let concurrent_replay = concurrent_replay.outcome().unwrap().unwrap();
    assert_ne!(first_add.created, concurrent_replay.created);
    assert_eq!(first_add.membership_id, concurrent_replay.membership_id);
    assert_eq!(first_add.revision, "1");
    assert_eq!(concurrent_replay.revision, "1");

    let active = database
        .check(&provider, organization_id, "usr_member")
        .unwrap()
        .unwrap();
    assert!(active.active);
    assert!(!active.owner);

    let conflict = database
        .add(
            &provider,
            "membership-admin",
            AddMemberRequest {
                subject: "usr_other".to_owned(),
                ..add.clone()
            },
        )
        .unwrap();
    assert_eq!(conflict, Err(AddMemberError::IdempotencyConflict));

    let second_caller = database
        .add(
            &provider,
            "second-membership-admin",
            AddMemberRequest {
                subject: "usr_second".to_owned(),
                ..add.clone()
            },
        )
        .unwrap()
        .unwrap();
    assert!(second_caller.created);

    let owner_removal = database
        .remove(
            &provider,
            "membership-admin",
            remove_request("remove-owner", organization_id, "usr_owner"),
        )
        .unwrap();
    assert_eq!(owner_removal, Err(RemoveMemberError::OwnerProtected));

    let remove = remove_request("remove-primary-member", organization_id, "usr_member");
    let removal = database
        .remove(&provider, "membership-admin", remove.clone())
        .unwrap()
        .unwrap();
    assert!(removal.removed);
    assert_eq!(removal.membership_id, first_add.membership_id);
    assert_eq!(removal.revision, "2");

    let replay = database
        .remove(&provider, "membership-admin", remove)
        .unwrap()
        .unwrap();
    assert!(!replay.removed);
    assert_eq!(replay.membership_id, first_add.membership_id);
    assert_eq!(replay.revision, "2");

    let inactive = database
        .check(&provider, organization_id, "usr_member")
        .unwrap()
        .unwrap();
    assert!(!inactive.active);
    assert!(!inactive.owner);

    let stored = database
        .committed
        .organizations
        .get_mut(organization_id)
        .unwrap();
    stored.active = false;
    stored.revision = 2;
    let archived_directory_entry = database.get(&provider, organization_id).unwrap().unwrap();
    assert!(!archived_directory_entry.active);
    assert_eq!(archived_directory_entry.revision, "2");

    let archived_replay = database
        .add(&provider, "membership-admin", add.clone())
        .unwrap()
        .unwrap();
    assert!(!archived_replay.created);
    assert_eq!(archived_replay.membership_id, first_add.membership_id);
    assert_eq!(archived_replay.revision, "1");

    let archived_new_command = database
        .add(
            &provider,
            "membership-admin",
            add_request("archived-new-command", organization_id, "usr_after_archive"),
        )
        .unwrap();
    assert_eq!(
        archived_new_command,
        Err(AddMemberError::OrganizationNotFound)
    );

    let operation_conflict = database
        .remove(
            &provider,
            "membership-admin",
            RemoveMemberRequest {
                idempotency_key: add.idempotency_key,
                organization_id: organization_id.to_owned(),
                subject: add.subject,
            },
        )
        .unwrap();
    assert_eq!(
        operation_conflict,
        Err(RemoveMemberError::IdempotencyConflict)
    );

    let missing_organization = database
        .add(
            &provider,
            "membership-admin",
            add_request("missing-organization", "org_missing", "usr_member"),
        )
        .unwrap();
    assert_eq!(
        missing_organization,
        Err(AddMemberError::OrganizationNotFound)
    );
}

#[test]
fn white_space_around_a_name_is_no_other_intent() {
    let mut database = Database::new();
    let provider = provider();
    let created = database
        .create(
            &provider,
            "business-admin",
            create_request("create-acme", "  Acme \u{3000}", "usr_owner", "acme"),
        )
        .unwrap()
        .unwrap();
    let entry = database
        .get(&provider, &created.organization_id)
        .unwrap()
        .unwrap();
    assert_eq!(entry.name, "Acme");
    let replay = database
        .create(
            &provider,
            "business-admin",
            create_request("create-acme", "Acme", "usr_owner", "acme"),
        )
        .unwrap()
        .unwrap();
    assert!(!replay.created);
    assert_eq!(replay.organization_id, created.organization_id);
}

#[test]
fn additions_of_one_subject_converge() {
    let mut database = Database::new();
    let provider = provider();
    let organization = database
        .create(
            &provider,
            "business-admin",
            create_request("create-acme", "Acme", "usr_owner", "acme"),
        )
        .unwrap()
        .unwrap();
    let first = database
        .add(
            &provider,
            "membership-admin",
            add_request("first", &organization.organization_id, "usr_member"),
        )
        .unwrap()
        .unwrap();
    let second = database
        .add(
            &provider,
            "second-membership-admin",
            add_request("second", &organization.organization_id, "usr_member"),
        )
        .unwrap()
        .unwrap();
    assert!(first.created);
    assert!(!second.created);
    assert_eq!(second.membership_id, first.membership_id);
    assert_eq!(second.revision, "1");
    assert_eq!(database.committed.memberships.len(), 2);
}

#[test]
fn owner_stays_owner_when_added() {
    let mut database = Database::new();
    let provider = provider();
    let organization = database
        .create(
            &provider,
            "business-admin",
            create_request("create-acme", "Acme", "usr_owner", "acme"),
        )
        .unwrap()
        .unwrap();
    let added = database
        .add(
            &provider,
            "membership-admin",
            add_request("add-owner", &organization.organization_id, "usr_owner"),
        )
        .unwrap()
        .unwrap();
    assert!(!added.created);
    assert_eq!(added.membership_id, organization.owner_membership_id);
    assert_eq!(
        database.check(&provider, &organization.organization_id, "usr_owner"),
        Ok(Ok(CheckMembershipResponse {
            active: true,
            owner: true
        }))
    );
}

#[test]
fn removed_subject_returns_as_a_new_member() {
    let mut database = Database::new();
    let provider = provider();
    let organization = database
        .create(
            &provider,
            "business-admin",
            create_request("create-acme", "Acme", "usr_owner", "acme"),
        )
        .unwrap()
        .unwrap();
    let organization_id = organization.organization_id.as_str();
    let first = database
        .add(
            &provider,
            "membership-admin",
            add_request("add", organization_id, "usr_member"),
        )
        .unwrap()
        .unwrap();
    database
        .remove(
            &provider,
            "membership-admin",
            remove_request("remove", organization_id, "usr_member"),
        )
        .unwrap()
        .unwrap();
    let again = database
        .add(
            &provider,
            "membership-admin",
            add_request("add-again", organization_id, "usr_member"),
        )
        .unwrap()
        .unwrap();
    assert!(again.created);
    assert_ne!(again.membership_id, first.membership_id);
    assert_eq!(again.revision, "1");
    assert_eq!(
        database.check(&provider, organization_id, "usr_member"),
        Ok(Ok(CheckMembershipResponse {
            active: true,
            owner: false
        }))
    );
    let replay = database
        .add(
            &provider,
            "membership-admin",
            add_request("add", organization_id, "usr_member"),
        )
        .unwrap()
        .unwrap();
    assert!(!replay.created);
    assert_eq!(replay.membership_id, first.membership_id);
    assert_eq!(replay.revision, "1");
}

#[test]
fn removal_of_a_stranger_is_not_found() {
    let mut database = Database::new();
    let provider = provider();
    let organization = database
        .create(
            &provider,
            "business-admin",
            create_request("create-acme", "Acme", "usr_owner", "acme"),
        )
        .unwrap()
        .unwrap();
    assert_eq!(
        database.remove(
            &provider,
            "membership-admin",
            remove_request("remove", &organization.organization_id, "usr_stranger"),
        ),
        Ok(Err(RemoveMemberError::MembershipNotFound))
    );
    assert_eq!(
        database.remove(
            &provider,
            "membership-admin",
            remove_request("remove", "org_missing", "usr_stranger"),
        ),
        Ok(Err(RemoveMemberError::OrganizationNotFound))
    );
    assert!(database.committed.commands.is_empty());
}

#[test]
fn slug_of_an_archived_organization_is_free() {
    let mut database = Database::new();
    let provider = provider();
    let first = database
        .create(
            &provider,
            "business-admin",
            create_request("first", "Acme", "usr_owner", "acme"),
        )
        .unwrap()
        .unwrap();
    database
        .committed
        .organizations
        .get_mut(&first.organization_id)
        .unwrap()
        .active = false;
    let second = database
        .create(
            &provider,
            "business-admin",
            create_request("second", "Acme", "usr_owner", "acme"),
        )
        .unwrap()
        .unwrap();
    assert!(second.created);
    assert_eq!(
        database.check(&provider, &first.organization_id, "usr_owner"),
        Ok(Err(CheckMembershipError::OrganizationNotFound))
    );
}

#[test]
fn lost_connection_names_the_request_and_changes_nothing() {
    let provider = provider();
    let messages = [
        "PostgreSQL operation `begin organization creation` failed",
        "PostgreSQL operation `reserve organization creation` failed",
        "PostgreSQL operation `insert organization` failed",
        "PostgreSQL operation `insert owner membership` failed",
        "PostgreSQL operation `commit organization creation` failed",
    ];
    for (requests, message) in messages.iter().enumerate() {
        let mut database = Database::new();
        database.requests_left = Some(requests);
        let outcome = database.create(
            &provider,
            "business-admin",
            create_request("create-acme", "Acme", "usr_owner", "acme"),
        );
        assert_eq!(outcome, Err(failure(message)));
        assert!(database.committed.organizations.is_empty());
        assert!(database.committed.memberships.is_empty());
        assert!(database.committed.creations.is_empty());
    }
}

#[test]
fn lost_connection_in_a_replay_names_the_request() {
    let provider = provider();
    let mut database = Database::new();
    let request = create_request("create-acme", "Acme", "usr_owner", "acme");
    let organization = database
        .create(&provider, "business-admin", request.clone())
        .unwrap()
        .unwrap();
    let organization_id = organization.organization_id.as_str();
    database
        .add(
            &provider,
            "membership-admin",
            add_request("add", organization_id, "usr_member"),
        )
        .unwrap()
        .unwrap();
    database
        .remove(
            &provider,
            "membership-admin",
            remove_request("remove", organization_id, "usr_member"),
        )
        .unwrap()
        .unwrap();

    for (requests, operation) in [
        (2, "read organization creation replay"),
        (3, "commit organization creation replay"),
    ] {
        database.requests_left = Some(requests);
        assert_eq!(
            database.create(&provider, "business-admin", request.clone()),
            Err(failure(&format!(
                "PostgreSQL operation `{operation}` failed"
            )))
        );
    }
    for (requests, operation) in [
        (2, "read membership command replay"),
        (3, "commit member addition replay"),
    ] {
        database.requests_left = Some(requests);
        assert_eq!(
            database.add(
                &provider,
                "membership-admin",
                add_request("add", organization_id, "usr_member"),
            ),
            Err(failure(&format!(
                "PostgreSQL operation `{operation}` failed"
            )))
        );
    }
    database.requests_left = Some(3);
    assert_eq!(
        database.remove(
            &provider,
            "membership-admin",
            remove_request("remove", organization_id, "usr_member"),
        ),
        Err(failure(
            "PostgreSQL operation `commit member removal replay` failed"
        ))
    );
}

#[test]
fn lost_connection_in_a_command_names_the_request() {
    let provider = provider();
    let mut database = Database::new();
    let organization = database
        .create(
            &provider,
            "business-admin",
            create_request("create-acme", "Acme", "usr_owner", "acme"),
        )
        .unwrap()
        .unwrap();
    let organization_id = organization.organization_id.as_str();
    let additions = [
        "begin member addition",
        "reserve membership command",
        "lock organization for membership command",
        "read active member for addition",
        "insert organization member",
        "complete membership command",
        "commit member addition",
    ];
    for (requests, operation) in additions.iter().enumerate() {
        database.requests_left = Some(requests);
        assert_eq!(
            database.add(
                &provider,
                "membership-admin",
                add_request("add", organization_id, "usr_member"),
            ),
            Err(failure(&format!(
                "PostgreSQL operation `{operation}` failed"
            )))
        );
        assert_eq!(database.committed.memberships.len(), 1);
        assert!(database.committed.commands.is_empty());
    }
    database.requests_left = None;
    database
        .add(
            &provider,
            "membership-admin",
            add_request("add", organization_id, "usr_member"),
        )
        .unwrap()
        .unwrap();
    let removals = [
        "begin member removal",
        "reserve membership command",
        "lock organization for membership command",
        "read active member for removal",
        "remove organization member",
        "complete membership command",
        "commit member removal",
    ];
    for (requests, operation) in removals.iter().enumerate() {
        database.requests_left = Some(requests);
        assert_eq!(
            database.remove(
                &provider,
                "membership-admin",
                remove_request("remove", organization_id, "usr_member"),
            ),
            Err(failure(&format!(
                "PostgreSQL operation `{operation}` failed"
            )))
        );
        assert!(database.committed.memberships[1].active);
    }
}

#[test]
fn operations_leave_everyone_else_alone() {
    let mut database = Database::new();
    let provider = provider();
    let first = database
        .create(
            &provider,
            "business-admin",
            create_request("first", "First", "usr_owner", "first"),
        )
        .unwrap()
        .unwrap();
    let second = database
        .create(
            &provider,
            "business-admin",
            create_request("second", "Second", "usr_owner", "second"),
        )
        .unwrap()
        .unwrap();
    database
        .add(
            &provider,
            "membership-admin",
            add_request("add-first", &first.organization_id, "usr_member"),
        )
        .unwrap()
        .unwrap();
    assert_eq!(
        database.check(&provider, &second.organization_id, "usr_member"),
        Ok(Ok(CheckMembershipResponse {
            active: false,
            owner: false
        }))
    );
    database
        .add(
            &provider,
            "membership-admin",
            add_request("add-second", &second.organization_id, "usr_member"),
        )
        .unwrap()
        .unwrap();
    database
        .remove(
            &provider,
            "membership-admin",
            remove_request("remove-first", &first.organization_id, "usr_member"),
        )
        .unwrap()
        .unwrap();
    assert_eq!(
        database.check(&provider, &second.organization_id, "usr_member"),
        Ok(Ok(CheckMembershipResponse {
            active: true,
            owner: false
        }))
    );
    assert_eq!(
        database.check(&provider, &first.organization_id, "usr_owner"),
        Ok(Ok(CheckMembershipResponse {
            active: true,
            owner: true
        }))
    );
    let entry = database
        .get(&provider, &first.organization_id)
        .unwrap()
        .unwrap();
    assert_eq!(entry.name, "First");
    assert_eq!(entry.revision, "1");
}

#[test]
fn overlapping_creations_create_once() {
    let mut database = Database::new();
    let provider = provider();
    let request = create_request("create-acme", "Acme", "usr_owner", "acme");
    let mut first =
        Overlapping::new(provider.create_organization(Some("business-admin"), true, request.clone()));
    let mut second =
        Overlapping::new(provider.create_organization(Some("business-admin"), true, request));
    first.serve(&mut database, 1, Creation::action, Creation::advance);
    second.serve(&mut database, 1, Creation::action, Creation::advance);
    first.serve(&mut database, 4, Creation::action, Creation::advance);
    second.serve(&mut database, 4, Creation::action, Creation::advance);
    let first = first.outcome().unwrap().unwrap();
    let second = second.outcome().unwrap().unwrap();
    assert!(first.created);
    assert!(!second.created);
    assert_eq!(second.organization_id, first.organization_id);
    assert_eq!(second.owner_membership_id, first.owner_membership_id);
    assert_eq!(database.committed.organizations.len(), 1);
    assert_eq!(database.committed.memberships.len(), 1);
    assert_eq!(database.committed.creations.len(), 1);
}

#[test]
fn overlapping_additions_agree_on_one_membership() {
    let mut database = Database::new();
    let provider = provider();
    let organization = database
        .create(
            &provider,
            "business-admin",
            create_request("create-acme", "Acme", "usr_owner", "acme"),
        )
        .unwrap()
        .unwrap()
        .organization_id;
    let begin = |caller: &str, key: &str| {
        Overlapping::new(provider.add_member(
            Some(caller),
            true,
            add_request(key, &organization, "usr_member"),
        ))
    };
    let mut first = begin("membership-admin", "add");
    let mut repeated = begin("membership-admin", "add");
    let mut other = begin("second-membership-admin", "add-too");
    repeated.serve(&mut database, 1, Addition::action, Addition::advance);
    other.serve(&mut database, 2, Addition::action, Addition::advance);
    first.serve(&mut database, 7, Addition::action, Addition::advance);
    repeated.serve(&mut database, 3, Addition::action, Addition::advance);
    other.serve(&mut database, 4, Addition::action, Addition::advance);
    let first = first.outcome().unwrap().unwrap();
    let repeated = repeated.outcome().unwrap().unwrap();
    let other = other.outcome().unwrap().unwrap();
    assert!(first.created);
    assert!(!repeated.created);
    assert!(!other.created);
    assert_eq!(repeated.membership_id, first.membership_id);
    assert_eq!(repeated.revision, first.revision);
    assert_eq!(other.membership_id, first.membership_id);
    assert_eq!(database.committed.memberships.len(), 2);
}

#[test]
fn overlapping_removals_agree_on_one_membership() {
    let mut database = Database::new();
    let provider = provider();
    let organization = database
        .create(
            &provider,
            "business-admin",
            create_request("create-acme", "Acme", "usr_owner", "acme"),
        )
        .unwrap()
        .unwrap()
        .organization_id;
    let added = database
        .add(
            &provider,
            "membership-admin",
            add_request("add", &organization, "usr_member"),
        )
        .unwrap()
        .unwrap();
    let begin = || {
        Overlapping::new(provider.remove_member(
            Some("membership-admin"),
            true,
            remove_request("remove", &organization, "usr_member"),
        ))
    };
    let mut first = begin();
    let mut second = begin();
    second.serve(&mut database, 1, Removal::action, Removal::advance);
    first.serve(&mut database, 7, Removal::action, Removal::advance);
    second.serve(&mut database, 3, Removal::action, Removal::advance);
    let first = first.outcome().unwrap().unwrap();
    let second = second.outcome().unwrap().unwrap();
    assert!(first.removed);
    assert!(!second.removed);
    assert_eq!(first.membership_id, added.membership_id);
    assert_eq!(second.membership_id, added.membership_id);
    assert_eq!(first.revision, "2");
    assert_eq!(second.revision, "2");
}

#[test]
fn standing_goes_by_the_transaction_that_started_last() {
    let mut database = Database::new();
    let provider = provider();
    let organization = database
        .create(
            &provider,
            "business-admin",
            create_request("create-acme", "Acme", "usr_owner", "acme"),
        )
        .unwrap()
        .unwrap()
        .organization_id;
    let mut early = Overlapping::new(provider.add_member(
        Some("membership-admin"),
        true,
        add_request("early", &organization, "usr_member"),
    ));
    early.serve(&mut database, 1, Addition::action, Addition::advance);
    let late = database
        .add(
            &provider,
            "membership-admin",
            add_request("late", &organization, "usr_member"),
        )
        .unwrap()
        .unwrap();
    database
        .remove(
            &provider,
            "membership-admin",
            remove_request("remove", &organization, "usr_member"),
        )
        .unwrap()
        .unwrap();
    early.serve(&mut database, 6, Addition::action, Addition::advance);
    let early = early.outcome().unwrap().unwrap();
    assert!(early.created);
    assert_ne!(early.membership_id, late.membership_id);
    let standing = database
        .check(&provider, &organization, "usr_member")
        .unwrap()
        .unwrap();
    assert!(!standing.active);
    assert!(!standing.owner);
}

#[test]
fn standing_follows_operations_that_start_in_order() {
    let mut database = Database::new();
    let provider = provider();
    let organization = database
        .create(
            &provider,
            "business-admin",
            create_request("create-acme", "Acme", "usr_owner", "acme"),
        )
        .unwrap()
        .unwrap()
        .organization_id;
    for round in 0..3 {
        database
            .add(
                &provider,
                "membership-admin",
                add_request(&format!("add-{round}"), &organization, "usr_member"),
            )
            .unwrap()
            .unwrap();
        let standing = database
            .check(&provider, &organization, "usr_member")
            .unwrap()
            .unwrap();
        assert!(standing.active);
        assert!(!standing.owner);
        database
            .remove(
                &provider,
                "membership-admin",
                remove_request(&format!("remove-{round}"), &organization, "usr_member"),
            )
            .unwrap()
            .unwrap();
        let standing = database
            .check(&provider, &organization, "usr_member")
            .unwrap()
            .unwrap();
        assert!(!standing.active);
        let owner = database
            .check(&provider, &organization, "usr_owner")
            .unwrap()
            .unwrap();
        assert!(owner.active && owner.owner);
    }
}
