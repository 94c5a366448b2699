use vstd::prelude::*;
use crate::domain::model::club::entity::{Club, ClubName, ClubView};
use crate::domain::model::club::factory::ClubFactoryTrait;
use crate::domain::model::club::repository::{club_name_taken, ClubRepositoryTrait};
use crate::domain::model::club::service::ClubService;
use crate::domain::model::user::entity::{UserId, UserView};
use crate::domain::model::user::repository::UserRepositoryTrait;
use crate::error::{DomainError, Missing, Subject, Taken};
use crate::validation::check_length_spec;

verus! {

/// What storing the new club `club` in a store that never fails returns, and
/// what the store holds afterwards: a club whose name is taken is refused and
/// the store is left alone; any other club is stored under its identity.
pub open spec fn found_spec(store: Map<Seq<char>, ClubView>, club: ClubView) -> (
    Result<(), DomainError>,
    Map<Seq<char>, ClubView>,
) {
    if club_name_taken(store, club.name) {
        (Err(DomainError::Duplicate(Taken::ClubName)), store)
    } else {
        (Ok(()), store.insert(club.id, club))
    }
}

/// A club as it is when it has just been founded: without members.
pub open spec fn new_club(id: Seq<char>, name: Seq<char>, owner: Seq<char>) -> ClubView {
    ClubView { id, name, owner, members: Seq::empty() }
}

/// Stores a newly made club unless its name is taken.
///
/// A store that fails to say whether the name is taken is treated as one in
/// which it is free.
pub fn found_club<C: ClubRepositoryTrait>(repository: &mut C, club: &Club) -> (done: Result<
    (),
    DomainError,
>)
    ensures
        final(repository).never_fails() == old(repository).never_fails(),
        old(repository).never_fails() ==> (done, final(repository)@) == found_spec(
            old(repository)@,
            club@,
        ),
        match done {
            Ok(()) => final(repository)@ == old(repository)@.insert(club@.id, club@),
            Err(DomainError::Duplicate(Taken::ClubName)) => {
                &&& club_name_taken(old(repository)@, club@.name)
                &&& final(repository)@ == old(repository)@
            },
            Err(DomainError::Store) => {
                &&& !old(repository).never_fails()
                &&& final(repository)@ == old(repository)@
            },
            Err(_) => false,
        },
{
    let known = ClubService::new(&*repository).exists_by_name(club);
    if known {
        return Err(DomainError::Duplicate(Taken::ClubName));
    }
    match repository.save(club) {
        Ok(()) => Ok(()),
        Err(_) => Err(DomainError::Store),
    }
}

/// What founding a club returns and leaves behind where neither the stores
/// nor the factory fail. The checks come in this order: the owner's identity
/// must validate; a user must be stored under it; the name must validate and
/// must not be borne by any stored club. The new club is stored under an
/// identity that the factory issues.
pub open spec fn founded_for_certain(
    users: Map<Seq<char>, UserView>,
    before: Map<Seq<char>, ClubView>,
    issues: spec_fn(Seq<char>) -> bool,
    user_id: Seq<char>,
    name: Seq<char>,
    done: Result<(), DomainError>,
    after: Map<Seq<char>, ClubView>,
) -> bool {
    match check_length_spec(user_id, UserId::MIN_LENGTH as nat) {
        Some(kind) => done == Err::<(), DomainError>(
            DomainError::Validation(Subject::UserId, kind),
        ) && after == before,
        None => if !users.contains_key(user_id) {
            done == Err::<(), DomainError>(DomainError::NotFound(Missing::User)) && after
                == before
        } else {
            match check_length_spec(name, ClubName::MIN_LENGTH as nat) {
                Some(kind) => done == Err::<(), DomainError>(
                    DomainError::Validation(Subject::ClubName, kind),
                ) && after == before,
                None => if club_name_taken(before, name) {
                    done == Err::<(), DomainError>(DomainError::Duplicate(Taken::ClubName))
                        && after == before
                } else {
                    done is Ok && exists|id: Seq<char>|
                        issues(id) && #[trigger] before.insert(id, new_club(id, name, user_id))
                            == after
                },
            }
        },
    }
}

/// Where neither the stores nor the factory fail, a stored user who founds a
/// club under a name that a stored club bears is refused as a duplicate, and
/// one who founds a club under any other name of three characters or more
/// succeeds: a club of that name, owned by the user and without members, is
/// stored afterwards.
pub proof fn law_founding(
    users: Map<Seq<char>, UserView>,
    before: Map<Seq<char>, ClubView>,
    issues: spec_fn(Seq<char>) -> bool,
    user_id: Seq<char>,
    name: Seq<char>,
    done: Result<(), DomainError>,
    after: Map<Seq<char>, ClubView>,
)
    requires
        founded_for_certain(users, before, issues, user_id, name, done, after),
        user_id.len() >= UserId::MIN_LENGTH,
        users.contains_key(user_id),
        name.len() >= ClubName::MIN_LENGTH,
    ensures
        club_name_taken(before, name) ==> done == Err::<(), DomainError>(
            DomainError::Duplicate(Taken::ClubName),
        ) && after == before,
        !club_name_taken(before, name) ==> done is Ok && exists|id: Seq<char>| #[trigger]
            after.contains_key(id) && after[id] == new_club(id, name, user_id),
{
    if !club_name_taken(before, name) {
        let id = choose|id: Seq<char>|
            issues(id) && #[trigger] before.insert(id, new_club(id, name, user_id)) == after;
        assert(after.contains_key(id) && after[id] == new_club(id, name, user_id));
    }
}

/// What founding a club may return and leave behind where a store or the
/// factory may fail: what it would for certain; or a failure of a store or of
/// the factory, and no change; or, where the store could not say whether the
/// name is taken, the new club stored all the same.
pub open spec fn founded(
    users: Map<Seq<char>, UserView>,
    before: Map<Seq<char>, ClubView>,
    issues: spec_fn(Seq<char>) -> bool,
    reliable: bool,
    user_id: Seq<char>,
    name: Seq<char>,
    done: Result<(), DomainError>,
    after: Map<Seq<char>, ClubView>,
) -> bool {
    ||| founded_for_certain(users, before, issues, user_id, name, done, after)
    ||| {
        &&& !reliable
        &&& after == before
        &&& check_length_spec(user_id, UserId::MIN_LENGTH as nat) is None
        &&& done matches Err(e)
        &&& (e is Store || e is Validation)
    }
    ||| {
        &&& !reliable
        &&& done is Ok
        &&& check_length_spec(user_id, UserId::MIN_LENGTH as nat) is None
        &&& users.contains_key(user_id)
        &&& check_length_spec(name, ClubName::MIN_LENGTH as nat) is None
        &&& exists|id: Seq<char>|
            issues(id) && #[trigger] before.insert(id, new_club(id, name, user_id)) == after
    }
}

/// The request to found a club.
pub struct ClubCreateCommand {
    user_id: String,
    name: String,
}

impl ClubCreateCommand {
    /// The identity of the user who is to own the club, as it was given.
    pub closed spec fn user_id(&self) -> Seq<char> {
        self.user_id@
    }

    /// The name that the club is to bear, as it was given.
    pub closed spec fn name(&self) -> Seq<char> {
        self.name@
    }

    pub fn new(user_id: &str, name: &str) -> (command: Self)
        ensures
            command.user_id() == user_id@,
            command.name() == name@,
    {
        Self { user_id: user_id.to_owned(), name: name.to_owned() }
    }
}

/// The use case that founds a club.
pub struct ClubCreateService<C: ClubRepositoryTrait, F: ClubFactoryTrait, U: UserRepositoryTrait> {
    club_repository: C,
    club_factory: F,
    user_repository: U,
}

impl<
    C: ClubRepositoryTrait,
    F: ClubFactoryTrait,
    U: UserRepositoryTrait,
> ClubCreateService<C, F, U> {
    /// The store of clubs that this service writes to.
    pub closed spec fn clubs(&self) -> C {
        self.club_repository
    }

    /// The factory that makes the new clubs.
    pub closed spec fn factory(&self) -> F {
        self.club_factory
    }

    /// The store of users that this service reads.
    pub closed spec fn users(&self) -> U {
        self.user_repository
    }

    /// Whether neither the stores nor the factory can fail.
    pub open spec fn never_fails(&self) -> bool {
        self.clubs().never_fails() && self.factory().never_fails() && self.users().never_fails()
    }

    pub fn new(club_repository: C, club_factory: F, user_repository: U) -> (service: Self)
        ensures
            service.clubs() == club_repository,
            service.factory() == club_factory,
            service.users() == user_repository,
    {
        Self { club_repository, club_factory, user_repository }
    }

    /// The store of clubs, to read from.
    pub fn club_repository(&self) -> (repository: &C)
        ensures
            *repository == self.clubs(),
    {
        &self.club_repository
    }

    /// Gives the two stores back.
    pub fn into_repositories(self) -> (repositories: (C, U))
        ensures
            repositories.0 == self.clubs(),
            repositories.1 == self.users(),
    {
        (self.club_repository, self.user_repository)
    }

    /// Founds a club of the name that the command holds, owned by the user
    /// that the command names. Whenever the use case fails, the stores are
    /// left as they were.
    pub fn handle(&mut self, command: ClubCreateCommand) -> (done: Result<(), DomainError>)
        ensures
            final(self).users() == old(self).users(),
            final(self).factory() == old(self).factory(),
            final(self).clubs().never_fails() == old(self).clubs().never_fails(),
            founded(
                old(self).users()@,
                old(self).clubs()@,
                |id: Seq<char>| old(self).factory().may_issue(id),
                old(self).never_fails(),
                command.user_id(),
                command.name(),
                done,
                final(self).clubs()@,
            ),
    {
        let ghost issues = |id: Seq<char>| old(self).factory().may_issue(id);
        let user_id = UserId::new(command.user_id.as_str())?;
        let found = match self.user_repository.find_by_id(&user_id) {
            Ok(found) => found,
            Err(_) => {
                return Err(DomainError::Store);
            },
        };
        let owner = match found {
            Some(owner) => owner,
            None => {
                return Err(DomainError::NotFound(Missing::User));
            },
        };
        let name = ClubName::new(command.name.as_str())?;
        let club = match self.club_factory.create(name, owner) {
            Ok(club) => club,
            Err(e) => {
                return Err(e);
            },
        };
        let done = found_club(&mut self.club_repository, &club);
        proof {
            if done is Ok {
                assert(club@ == new_club(club@.id, command.name(), command.user_id()));
                assert(issues(club@.id) && old(self).clubs()@.insert(
                    club@.id,
                    new_club(club@.id, command.name(), command.user_id()),
                ) == self.clubs()@);
            }
        }
        done
    }
}

} // verus!
