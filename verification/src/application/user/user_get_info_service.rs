use vstd::prelude::*;
use crate::domain::model::user::entity::{User, UserId, UserView};
use crate::domain::model::user::repository::UserRepositoryTrait;
use crate::validation::check_length_spec;

verus! {

/// What a reader is told of a user.
#[derive(Debug)]
pub struct UserData {
    id: String,
    name: String,
}

impl UserData {
    /// The identity of the user.
    pub closed spec fn id(&self) -> Seq<char> {
        self.id@
    }

    /// The name of the user.
    pub closed spec fn name(&self) -> Seq<char> {
        self.name@
    }

    pub fn new(user: &User) -> (data: Self)
        ensures
            data.id() == user@.id,
            data.name() == user@.name,
    {
        let id = user.get_id();
        let name = user.get_name();
        Self { id: id.to_string(), name: name.to_string() }
    }

    pub fn get_id(&self) -> (id: String)
        ensures
            id@ == self.id(),
    {
        self.id.clone()
    }

    pub fn get_name(&self) -> (name: String)
        ensures
            name@ == self.name(),
    {
        self.name.clone()
    }
}

/// Whether a store that never fails has something to tell of the user `id`.
pub open spec fn is_readable(store: Map<Seq<char>, UserView>, id: Seq<char>) -> bool {
    check_length_spec(id, UserId::MIN_LENGTH as nat) is None && store.contains_key(id)
}

/// The use case that reads a user.
pub struct UserGetInfoService<R: UserRepositoryTrait> {
    user_repository: R,
}

impl<R: UserRepositoryTrait> UserGetInfoService<R> {
    /// The store that this service reads.
    pub closed spec fn repository(&self) -> R {
        self.user_repository
    }

    pub fn new(user_repository: R) -> (service: Self)
        ensures
            service.repository() == user_repository,
    {
        Self { user_repository }
    }

    /// Gives the store back.
    pub fn into_repository(self) -> (repository: R)
        ensures
            repository == self.repository(),
    {
        self.user_repository
    }

    /// The identity and the name of the user stored under `user_id`. There
    /// is nothing to tell where the identity does not validate, where no
    /// user is stored under it, or where the store fails.
    pub fn handle(&self, user_id: &str) -> (told: Option<UserData>)
        ensures
            told matches Some(data) ==> {
                &&& is_readable(self.repository()@, user_id@)
                &&& data.id() == user_id@
                &&& data.name() == self.repository()@[user_id@].name
            },
            self.repository().never_fails() ==> (told is Some <==> is_readable(
                self.repository()@,
                user_id@,
            )),
            !is_readable(self.repository()@, user_id@) ==> told is None,
    {
        let target_id = match UserId::new(user_id) {
            Ok(id) => id,
            Err(_) => {
                return None;
            },
        };
        match self.user_repository.find_by_id(&target_id) {
            Ok(Some(user)) => Some(UserData::new(&user)),
            _ => None,
        }
    }
}

} // verus!
