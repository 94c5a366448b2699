use vstd::prelude::*;
use crate::domain::model::user::entity::UserId;
use crate::domain::model::user::repository::UserRepositoryTrait;
use crate::error::{DomainError, Missing};
use super::user_upgrade_service::tier_changed;

verus! {

/// The request to make a user ordinary.
pub struct UserDowngradeCommand {
    id: String,
}

impl UserDowngradeCommand {
    /// The identity of the user, as it was given.
    pub closed spec fn id(&self) -> Seq<char> {
        self.id@
    }

    pub fn new(id: &str) -> (command: Self)
        ensures
            command.id() == id@,
    {
        Self { id: id.to_owned() }
    }
}

/// The use case that makes a user ordinary.
pub struct UserDowngradeService<R: UserRepositoryTrait> {
    user_repository: R,
}

impl<R: UserRepositoryTrait> UserDowngradeService<R> {
    /// The store that this service writes to.
    pub closed spec fn repository(&self) -> R {
        self.user_repository
    }

    pub fn new(user_repository: R) -> (service: Self)
        ensures
            service.repository() == user_repository,
    {
        Self { user_repository }
    }

    /// The store, to read from.
    pub fn user_repository(&self) -> (repository: &R)
        ensures
            *repository == self.repository(),
    {
        &self.user_repository
    }

    /// Gives the store back.
    pub fn into_repository(self) -> (repository: R)
        ensures
            repository == self.repository(),
    {
        self.user_repository
    }

    /// Loads the user that the command names, makes it ordinary and stores it
    /// again.
    pub fn handle(&mut self, command: UserDowngradeCommand) -> (done: Result<(), DomainError>)
        ensures
            final(self).repository().never_fails() == old(self).repository().never_fails(),
            tier_changed(
                old(self).repository()@,
                old(self).repository().never_fails(),
                command.id(),
                false,
                done,
                final(self).repository()@,
            ),
    {
        let target_id = UserId::new(command.id.as_str())?;
        let found = match self.user_repository.find_by_id(&target_id) {
            Ok(found) => found,
            Err(_) => {
                return Err(DomainError::Store);
            },
        };
        let mut user = match found {
            Some(user) => user,
            None => {
                return Err(DomainError::NotFound(Missing::User));
            },
        };
        user.downgrade()?;
        match self.user_repository.save(&user) {
            Ok(()) => Ok(()),
            Err(_) => Err(DomainError::Store),
        }
    }
}

} // verus!
