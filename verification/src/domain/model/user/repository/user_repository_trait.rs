use vstd::prelude::*;
use crate::error::StoreError;
use super::super::entity::{User, UserId, UserName, UserView};

verus! {

/// Whether some stored user bears `name`.
pub open spec fn name_taken(store: Map<Seq<char>, UserView>, name: Seq<char>) -> bool {
    exists|id: Seq<char>| #[trigger] store.contains_key(id) && store[id].name == name
}

/// Whether `found` is what a store holding `store` may answer when asked for
/// the users in `ids`: each stored user that was asked for, once, in any
/// order, and nothing else.
pub open spec fn is_selection(
    store: Map<Seq<char>, UserView>,
    ids: Seq<Seq<char>>,
    found: Seq<UserView>,
) -> bool {
    &&& forall|i: int|
        0 <= i < found.len() ==> {
            &&& store.contains_key((#[trigger] found[i]).id)
            &&& store[found[i].id] == found[i]
            &&& ids.contains(found[i].id)
        }
    &&& forall|i: int, j: int|
        0 <= i < j < found.len() ==> (#[trigger] found[i]).id != (#[trigger] found[j]).id
    &&& forall|k: int|
        0 <= k < ids.len() && store.contains_key(#[trigger] ids[k]) ==> exists|i: int|
            0 <= i < found.len() && (#[trigger] found[i]).id == ids[k]
}

/// A store of users.
///
/// What the store holds is modelled as a map from each stored user's identity
/// to the user. A store may fail to carry out a request unless it
/// `never_fails`; a request that fails leaves the store as it was.
pub trait UserRepositoryTrait {
    /// The stored users, by identity.
    spec fn view(&self) -> Map<Seq<char>, UserView>;

    /// Whether every request to this store is certain to be carried out.
    spec fn never_fails(&self) -> bool;

    /// Stores `user` under its identity, in place of any user stored under
    /// that identity before.
    fn save(&mut self, user: &User) -> (done: Result<(), StoreError>)
        ensures
            final(self).never_fails() == old(self).never_fails(),
            done is Ok ==> final(self)@ == old(self)@.insert(user@.id, user@),
            done is Err ==> final(self)@ == old(self)@ && !old(self).never_fails(),
    ;

    /// A stored user that bears `user_name`, if there is one.
    fn find_by_name(&self, user_name: &UserName) -> (found: Result<Option<User>, StoreError>)
        ensures
            match found {
                Ok(Some(user)) => {
                    &&& self@.contains_key(user@.id)
                    &&& self@[user@.id] == user@
                    &&& user@.name == user_name@
                },
                Ok(None) => !name_taken(self@, user_name@),
                Err(_) => !self.never_fails(),
            },
    ;

    /// The user stored under `id`, if there is one.
    fn find_by_id(&self, id: &UserId) -> (found: Result<Option<User>, StoreError>)
        ensures
            match found {
                Ok(Some(user)) => {
                    &&& self@.contains_key(id@)
                    &&& self@[id@] == user@
                    &&& user@.id == id@
                },
                Ok(None) => !self@.contains_key(id@),
                Err(_) => !self.never_fails(),
            },
    ;

    /// Removes the user stored under `id`, if there is one.
    fn delete(&mut self, id: &UserId) -> (done: Result<(), StoreError>)
        ensures
            final(self).never_fails() == old(self).never_fails(),
            done is Ok ==> final(self)@ == old(self)@.remove(id@),
            done is Err ==> final(self)@ == old(self)@ && !old(self).never_fails(),
    ;

    /// The stored users among `users`, each once, in an order of the store's
    /// choosing. There are no more of them than identities were given.
    fn batch_find(&self, users: Vec<UserId>) -> (found: Result<Vec<User>, StoreError>)
        ensures
            match found {
                Ok(list) => {
                    &&& is_selection(self@, users.deep_view(), list.deep_view())
                    &&& list.len() <= users.len()
                },
                Err(_) => !self.never_fails(),
            },
    ;
}

} // verus!
