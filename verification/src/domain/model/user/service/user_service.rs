use vstd::prelude::*;
use super::super::entity::User;
use super::super::repository::{name_taken, UserRepositoryTrait};

verus! {

/// Answers whether a user is already known to a store.
pub struct UserService<'a, R: UserRepositoryTrait> {
    repository: &'a R,
}

impl<'a, R: UserRepositoryTrait> UserService<'a, R> {
    /// The store that this service asks.
    pub closed spec fn repository(&self) -> &'a R {
        self.repository
    }

    pub fn new(repository: &'a R) -> (service: Self)
        ensures
            service.repository() == repository,
    {
        UserService { repository }
    }

    /// Whether a stored user bears the name of `user`. A store that fails to
    /// answer counts as one that holds no such user.
    pub fn exists_by_name(&self, user: &User) -> (known: bool)
        ensures
            known ==> name_taken(self.repository()@, user@.name),
            self.repository().never_fails() ==> known == name_taken(
                self.repository()@,
                user@.name,
            ),
    {
        let name = user.get_name();
        let res = self.repository.find_by_name(name);
        match res {
            Ok(maybe_user) => maybe_user.is_some(),
            Err(_) => false,
        }
    }

    /// Whether a user is stored under the identity of `user`. A store that
    /// fails to answer counts as one that holds no such user.
    pub fn exists_by_id(&self, user: &User) -> (known: bool)
        ensures
            known ==> self.repository()@.contains_key(user@.id),
            self.repository().never_fails() ==> known == self.repository()@.contains_key(
                user@.id,
            ),
    {
        let id = user.get_id();
        let res = self.repository.find_by_id(id);
        match res {
            Ok(maybe_user) => maybe_user.is_some(),
            Err(_) => false,
        }
    }
}

} // verus!
