use vstd::prelude::*;
use crate::domain::model::user::entity::{UserId, UserName, UserView};
use crate::domain::model::user::repository::{name_taken, UserRepositoryTrait};
use crate::domain::model::user::service::UserService;
use crate::error::{DomainError, Missing, Subject, Taken};
use crate::validation::check_length_spec;

verus! {

/// What updating the user `id` returns from a store that never fails, and
/// what the store holds afterwards.
///
/// The checks come in this order: the identity must validate; a user must be
/// stored under it; the new name, if one is given, must validate and must
/// not be borne by any stored user (the user's own present name counts as
/// taken).
pub open spec fn update_spec(
    store: Map<Seq<char>, UserView>,
    id: Seq<char>,
    name: Option<Seq<char>>,
) -> (Result<(), DomainError>, Map<Seq<char>, UserView>) {
    match check_length_spec(id, UserId::MIN_LENGTH as nat) {
        Some(kind) => (Err(DomainError::Validation(Subject::UserId, kind)), store),
        None => if !store.contains_key(id) {
            (Err(DomainError::NotFound(Missing::User)), store)
        } else {
            match name {
                None => (Ok(()), store.insert(id, store[id])),
                Some(name) => match check_length_spec(name, UserName::MIN_LENGTH as nat) {
                    Some(kind) => (Err(DomainError::Validation(Subject::UserName, kind)), store),
                    None => if name_taken(store, name) {
                        (Err(DomainError::Duplicate(Taken::UserName)), store)
                    } else {
                        (Ok(()), store.insert(id, store[id].renamed(name)))
                    },
                },
            }
        },
    }
}

/// What an update may return and leave behind in a store that may fail:
/// what it would in one that never fails; or a store failure and no change;
/// or, where the store could not say whether the new name is taken, the
/// renamed user stored all the same.
pub open spec fn updated(
    before: Map<Seq<char>, UserView>,
    reliable: bool,
    id: Seq<char>,
    name: Option<Seq<char>>,
    done: Result<(), DomainError>,
    after: Map<Seq<char>, UserView>,
) -> bool {
    ||| (done, after) == update_spec(before, id, name)
    ||| {
        &&& !reliable
        &&& done == Err::<(), DomainError>(DomainError::Store)
        &&& after == before
        &&& check_length_spec(id, UserId::MIN_LENGTH as nat) is None
    }
    ||| {
        &&& !reliable
        &&& done is Ok
        &&& before.contains_key(id)
        &&& name matches Some(name)
        &&& check_length_spec(name, UserName::MIN_LENGTH as nat) is None
        &&& name_taken(before, name)
        &&& after == before.insert(id, before[id].renamed(name))
    }
}

/// The request to change what is known of a user.
pub struct UserUpdateCommand {
    id: String,
    name: Option<String>,
}

impl UserUpdateCommand {
    /// The identity of the user, as it was given.
    pub closed spec fn id(&self) -> Seq<char> {
        self.id@
    }

    /// The new name, if the user is to have one.
    pub closed spec fn name(&self) -> Option<Seq<char>> {
        match self.name {
            Some(name) => Some(name@),
            None => None,
        }
    }

    pub fn new(id: &str, name: Option<&str>) -> (command: Self)
        ensures
            command.id() == id@,
            command.name() == match name {
                Some(name) => Some(name@),
                None => None,
            },
    {
        Self {
            id: id.to_owned(),
            name: match name {
                Some(name) => Some(name.to_owned()),
                None => None,
            },
        }
    }
}

/// The use case that changes what is known of a user.
pub struct UserUpdateInfoService<R: UserRepositoryTrait> {
    user_repository: R,
}

impl<R: UserRepositoryTrait> UserUpdateInfoService<R> {
    /// The store that this service writes to.
    pub closed spec fn repository(&self) -> R {
        self.user_repository
    }

    pub fn new(user_repository: R) -> (service: Self)
        ensures
            service.repository() == user_repository,
    {
        Self { user_repository }
    }

    /// The store, to read from.
    pub fn user_repository(&self) -> (repository: &R)
        ensures
            *repository == self.repository(),
    {
        &self.user_repository
    }

    /// Gives the store back.
    pub fn into_repository(self) -> (repository: R)
        ensures
            repository == self.repository(),
    {
        self.user_repository
    }

    /// Loads the user that the command names, gives it the new name if the
    /// command holds one and no stored user bears it, and stores the user
    /// again.
    pub fn handle(&mut self, command: UserUpdateCommand) -> (done: Result<(), DomainError>)
        ensures
            final(self).repository().never_fails() == old(self).repository().never_fails(),
            updated(
                old(self).repository()@,
                old(self).repository().never_fails(),
                command.id(),
                command.name(),
                done,
                final(self).repository()@,
            ),
    {
        let target_id = UserId::new(command.id.as_str())?;
        let found = match self.user_repository.find_by_id(&target_id) {
            Ok(found) => found,
            Err(_) => {
                return Err(DomainError::Store);
            },
        };
        let mut user = match found {
            Some(user) => user,
            None => {
                return Err(DomainError::NotFound(Missing::User));
            },
        };
        if let Some(name) = command.name {
            let new_user_name = UserName::new(name.as_str())?;
            user.change_name(new_user_name)?;
            let user_service = UserService::new(&self.user_repository);
            if user_service.exists_by_name(&user) {
                return Err(DomainError::Duplicate(Taken::UserName));
            }
        }
        match self.user_repository.save(&user) {
            Ok(()) => Ok(()),
            Err(_) => Err(DomainError::Store),
        }
    }
}

} // verus!
