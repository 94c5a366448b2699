use vstd::prelude::*;
use crate::domain::model::user::entity::User;
use crate::error::DomainError;
use super::super::entity::{Club, ClubName};

verus! {

/// Makes a new club out of a name and an owner.
pub trait ClubFactoryTrait {
    /// Whether `create` is certain to succeed.
    spec fn never_fails(&self) -> bool;

    /// Whether `id` is an identity that this factory may hand out.
    spec fn may_issue(&self, id: Seq<char>) -> bool;

    /// A club with the given name and owner, an identity of the factory's
    /// choosing, and no member yet. A factory fails only where one of the
    /// club's parts does not validate.
    fn create(&self, name: ClubName, owner: User) -> (made: Result<Club, DomainError>)
        ensures
            self.never_fails() ==> made is Ok,
            made matches Err(e) ==> e is Validation,
            made matches Ok(club) ==> {
                &&& club@.name == name@
                &&& club@.owner == owner@.id
                &&& club@.members == Seq::<Seq<char>>::empty()
                &&& self.may_issue(club@.id)
            },
    ;
}

} // verus!
