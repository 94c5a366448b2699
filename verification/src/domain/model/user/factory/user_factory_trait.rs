use vstd::prelude::*;
use crate::error::DomainError;
use super::super::entity::{User, UserName};

verus! {

/// Makes a new user out of a name.
pub trait UserFactoryTrait {
    /// Whether `create` is certain to succeed.
    spec fn never_fails(&self) -> bool;

    /// Whether `id` is an identity that this factory may hand out.
    spec fn may_issue(&self, id: Seq<char>) -> bool;

    /// A user with the given name, an identity of the factory's choosing, and
    /// an ordinary (not premium) membership. A factory fails only where one
    /// of the user's parts does not validate.
    fn create(&self, name: UserName) -> (made: Result<User, DomainError>)
        ensures
            self.never_fails() ==> made is Ok,
            made matches Err(e) ==> e is Validation,
            made matches Ok(user) ==> {
                &&& user@.name == name@
                &&& !user@.is_premium
                &&& self.may_issue(user@.id)
            },
    ;
}

} // verus!
