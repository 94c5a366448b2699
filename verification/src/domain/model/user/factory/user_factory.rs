use vstd::prelude::*;
use crate::error::DomainError;
use crate::identity::{fresh_identity, is_random_uuid};
use super::UserFactoryTrait;
use super::super::entity::{User, UserId, UserIsPremium, UserName};

verus! {

/// The factory that identifies each new user by a random UUID.
pub struct UserFactory {}

impl UserFactory {
    pub fn new() -> Self {
        Self {  }
    }
}

impl UserFactoryTrait for UserFactory {
    open spec fn never_fails(&self) -> bool {
        true
    }

    open spec fn may_issue(&self, id: Seq<char>) -> bool {
        is_random_uuid(id)
    }

    fn create(&self, name: UserName) -> (made: Result<User, DomainError>) {
        let id = fresh_identity();
        let id = UserId::new(id.as_str())?;
        let is_premium = UserIsPremium::new(false);
        User::new(id, name, is_premium)
    }
}

} // verus!
