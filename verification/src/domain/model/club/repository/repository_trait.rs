use vstd::prelude::*;
use crate::error::StoreError;
use super::super::entity::{Club, ClubId, ClubName, ClubView};

verus! {

/// Whether some stored club bears `name`.
pub open spec fn club_name_taken(store: Map<Seq<char>, ClubView>, name: Seq<char>) -> bool {
    exists|id: Seq<char>| #[trigger] store.contains_key(id) && store[id].name == name
}

/// Whether `listed` is what a store holding `store` may answer when asked for
/// all its clubs: each stored club once, in any order, and nothing else.
pub open spec fn is_listing(store: Map<Seq<char>, ClubView>, listed: Seq<ClubView>) -> bool {
    &&& forall|i: int|
        0 <= i < listed.len() ==> {
            &&& store.contains_key((#[trigger] listed[i]).id)
            &&& store[listed[i].id] == listed[i]
        }
    &&& forall|i: int, j: int|
        0 <= i < j < listed.len() ==> (#[trigger] listed[i]).id != (#[trigger] listed[j]).id
    &&& forall|id: Seq<char>| #[trigger]
        store.contains_key(id) ==> exists|i: int|
            0 <= i < listed.len() && (#[trigger] listed[i]).id == id
}

/// A store of clubs.
///
/// What the store holds is modelled as a map from each stored club's identity
/// to the club. A store may fail to carry out a request unless it
/// `never_fails`; a request that fails leaves the store as it was.
pub trait ClubRepositoryTrait {
    /// The stored clubs, by identity.
    spec fn view(&self) -> Map<Seq<char>, ClubView>;

    /// The stored clubs, in the order in which the store lists them.
    spec fn listing(&self) -> Seq<ClubView>;

    /// Whether every request to this store is certain to be carried out.
    spec fn never_fails(&self) -> bool;

    /// Stores `club` under its identity, in place of any club stored under
    /// that identity before.
    fn save(&mut self, club: &Club) -> (done: Result<(), StoreError>)
        ensures
            final(self).never_fails() == old(self).never_fails(),
            done is Ok ==> final(self)@ == old(self)@.insert(club@.id, club@),
            done is Err ==> final(self)@ == old(self)@ && !old(self).never_fails(),
    ;

    /// A stored club that bears `club_name`, if there is one.
    fn find_by_name(&self, club_name: &ClubName) -> (found: Result<Option<Club>, StoreError>)
        ensures
            match found {
                Ok(Some(club)) => {
                    &&& self@.contains_key(club@.id)
                    &&& self@[club@.id] == club@
                    &&& club@.name == club_name@
                },
                Ok(None) => !club_name_taken(self@, club_name@),
                Err(_) => !self.never_fails(),
            },
    ;

    /// The club stored under `id`, if there is one.
    fn find_by_id(&self, id: &ClubId) -> (found: Result<Option<Club>, StoreError>)
        ensures
            match found {
                Ok(Some(club)) => {
                    &&& self@.contains_key(id@)
                    &&& self@[id@] == club@
                    &&& club@.id == id@
                },
                Ok(None) => !self@.contains_key(id@),
                Err(_) => !self.never_fails(),
            },
    ;

    /// All stored clubs, each once, in the order in which the store lists
    /// them.
    fn find_all(&self) -> (found: Result<Vec<Club>, StoreError>)
        ensures
            match found {
                Ok(list) => {
                    &&& list.deep_view() == self.listing()
                    &&& is_listing(self@, self.listing())
                },
                Err(_) => !self.never_fails(),
            },
    ;
}

} // verus!
