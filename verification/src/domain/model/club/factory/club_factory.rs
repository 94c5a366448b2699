use vstd::prelude::*;
use crate::domain::model::user::entity::User;
use crate::error::DomainError;
use crate::identity::{fresh_identity, is_random_uuid};
use super::ClubFactoryTrait;
use super::super::entity::{Club, ClubId, ClubName};

verus! {

/// The factory that identifies each new club by a random UUID.
pub struct ClubFactory {}

impl ClubFactory {
    pub fn new() -> Self {
        Self {  }
    }
}

impl ClubFactoryTrait for ClubFactory {
    open spec fn never_fails(&self) -> bool {
        true
    }

    open spec fn may_issue(&self, id: Seq<char>) -> bool {
        is_random_uuid(id)
    }

    fn create(&self, name: ClubName, owner: User) -> (made: Result<Club, DomainError>) {
        let id = fresh_identity();
        let id = ClubId::new(id.as_str())?;
        let members = Vec::new();
        assert(members.deep_view() =~= Seq::<Seq<char>>::empty());
        Club::new(id, name, members, owner.get_id().clone())
    }
}

} // verus!
