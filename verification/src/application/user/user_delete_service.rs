use vstd::prelude::*;
use crate::domain::model::user::entity::{UserId, UserView};
use crate::domain::model::user::repository::UserRepositoryTrait;
use crate::error::{DomainError, Subject};
use crate::validation::check_length_spec;

verus! {

/// What deleting the user `id` returns from a store that never fails, and
/// what the store holds afterwards. Deleting a user that is not stored
/// succeeds and changes nothing.
pub open spec fn delete_spec(store: Map<Seq<char>, UserView>, id: Seq<char>) -> (
    Result<(), DomainError>,
    Map<Seq<char>, UserView>,
) {
    match check_length_spec(id, UserId::MIN_LENGTH as nat) {
        Some(kind) => (Err(DomainError::Validation(Subject::UserId, kind)), store),
        None => (Ok(()), store.remove(id)),
    }
}

/// Deleting twice is the same as deleting once, and after a deletion no user
/// is stored under the identity.
pub proof fn law_delete_is_idempotent(store: Map<Seq<char>, UserView>, id: Seq<char>)
    requires
        check_length_spec(id, UserId::MIN_LENGTH as nat) is None,
    ensures
        delete_spec(store, id).0 is Ok,
        !delete_spec(store, id).1.contains_key(id),
        delete_spec(delete_spec(store, id).1, id) == delete_spec(store, id),
        !store.contains_key(id) ==> delete_spec(store, id).1 == store,
{
    assert(store.remove(id).remove(id) =~= store.remove(id));
    if !store.contains_key(id) {
        assert(store.remove(id) =~= store);
    }
}

/// What a deletion may return and leave behind in a store that may fail:
/// what it would in one that never fails, or a store failure and no change.
pub open spec fn deleted(
    before: Map<Seq<char>, UserView>,
    reliable: bool,
    id: Seq<char>,
    done: Result<(), DomainError>,
    after: Map<Seq<char>, UserView>,
) -> bool {
    ||| (done, after) == delete_spec(before, id)
    ||| {
        &&& !reliable
        &&& done == Err::<(), DomainError>(DomainError::Store)
        &&& after == before
        &&& check_length_spec(id, UserId::MIN_LENGTH as nat) is None
    }
}

/// The request to remove a user.
pub struct UserDeleteCommand {
    id: String,
}

impl UserDeleteCommand {
    /// The identity of the user, as it was given.
    pub closed spec fn id(&self) -> Seq<char> {
        self.id@
    }

    pub fn new(id: &str) -> (command: Self)
        ensures
            command.id() == id@,
    {
        Self { id: id.to_owned() }
    }
}

/// The use case that removes a user.
pub struct UserDeleteService<R: UserRepositoryTrait> {
    user_repository: R,
}

impl<R: UserRepositoryTrait> UserDeleteService<R> {
    /// The store that this service writes to.
    pub closed spec fn repository(&self) -> R {
        self.user_repository
    }

    pub fn new(user_repository: R) -> (service: Self)
        ensures
            service.repository() == user_repository,
    {
        Self { user_repository }
    }

    /// The store, to read from.
    pub fn user_repository(&self) -> (repository: &R)
        ensures
            *repository == self.repository(),
    {
        &self.user_repository
    }

    /// Gives the store back.
    pub fn into_repository(self) -> (repository: R)
        ensures
            repository == self.repository(),
    {
        self.user_repository
    }

    /// Removes the user that the command names, if it is stored.
    pub fn handle(&mut self, command: UserDeleteCommand) -> (done: Result<(), DomainError>)
        ensures
            final(self).repository().never_fails() == old(self).repository().never_fails(),
            deleted(
                old(self).repository()@,
                old(self).repository().never_fails(),
                command.id(),
                done,
                final(self).repository()@,
            ),
    {
        let id = UserId::new(command.id.as_str())?;
        let found = match self.user_repository.find_by_id(&id) {
            Ok(found) => found,
            Err(_) => {
                return Err(DomainError::Store);
            },
        };
        match found {
            Some(_) => match self.user_repository.delete(&id) {
                Ok(()) => Ok(()),
                Err(_) => Err(DomainError::Store),
            },
            None => {
                assert(self.repository()@.remove(id@) =~= self.repository()@);
                Ok(())
            },
        }
    }
}

} // verus!
