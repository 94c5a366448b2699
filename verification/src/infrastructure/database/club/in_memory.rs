use vstd::prelude::*;
use crate::domain::model::club::entity::{Club, ClubId, ClubName, ClubView};
use crate::domain::model::club::repository::ClubRepositoryTrait;
use crate::error::StoreError;
use crate::infrastructure::database::table::{
    distinct_keys, has_row, lemma_pushed, lemma_replaced, lemma_row, lemma_table_size, table_of,
};

verus! {

/// The key of a row of clubs: the club's identity.
pub open spec fn club_key() -> spec_fn(ClubView) -> Seq<char> {
    |club: ClubView| club.id
}

/// A listing of clubs after `club` has been stored: in the place of the club
/// with its identity, if there is one, and at the end otherwise.
pub open spec fn put(listing: Seq<ClubView>, club: ClubView) -> Seq<ClubView> {
    if has_row(listing, club_key(), club.id) {
        listing.update(
            choose|i: int| 0 <= i < listing.len() && club_key()(#[trigger] listing[i]) == club.id,
            club,
        )
    } else {
        listing.push(club)
    }
}

/// A store of clubs that lives in memory and never fails. It lists its clubs
/// in the order in which they were first stored.
pub struct InMemoryClubRepository {
    rows: Vec<Club>,
}

impl InMemoryClubRepository {
    /// No two rows share an identity.
    #[verifier::type_invariant]
    spec fn well_formed(&self) -> bool {
        distinct_keys(self.rows.deep_view(), club_key())
    }

    /// An empty store.
    pub fn new() -> (store: Self)
        ensures
            store@ == Map::<Seq<char>, ClubView>::empty(),
            store.listing() == Seq::<ClubView>::empty(),
    {
        let store = Self { rows: Vec::new() };
        assert(store.rows.deep_view() =~= Seq::<ClubView>::empty());
        assert(store@ =~= Map::<Seq<char>, ClubView>::empty());
        store
    }

    /// How many clubs the store holds.
    pub fn len(&self) -> (count: usize)
        ensures
            self@.dom().finite(),
            count == self@.len(),
    {
        proof {
            use_type_invariant(self);
            lemma_table_size(self.rows.deep_view(), club_key());
        }
        self.rows.len()
    }

    /// Where the row with the identity `id` stands, if there is one.
    fn position(&self, id: &ClubId) -> (at: Option<usize>)
        ensures
            match at {
                Some(i) => i < self.rows.len() && self.rows.deep_view()[i as int].id == id@,
                None => !has_row(self.rows.deep_view(), club_key(), id@),
            },
    {
        let mut i: usize = 0;
        while i < self.rows.len()
            invariant
                i <= self.rows.len(),
                forall|k: int| 0 <= k < i ==> (#[trigger] self.rows.deep_view()[k]).id != id@,
            decreases self.rows.len() - i,
        {
            if self.rows[i].get_id() == id {
                return Some(i);
            }
            i += 1;
        }
        None
    }
}

impl ClubRepositoryTrait for InMemoryClubRepository {
    closed spec fn view(&self) -> Map<Seq<char>, ClubView> {
        table_of(self.rows.deep_view(), club_key())
    }

    closed spec fn listing(&self) -> Seq<ClubView> {
        self.rows.deep_view()
    }

    open spec fn never_fails(&self) -> bool {
        true
    }

    /// A club that is stored for the first time comes last in the listing; a
    /// club that is stored again keeps its place.
    fn save(&mut self, club: &Club) -> (done: Result<(), StoreError>)
        ensures
            done is Ok,
            final(self).listing() == put(old(self).listing(), club@),
    {
        proof {
            use_type_invariant(&*self);
        }
        let ghost before = self.rows.deep_view();
        let at = self.position(club.get_id());
        let mut rows = Vec::new();
        std::mem::swap(&mut rows, &mut self.rows);
        match at {
            Some(i) => {
                rows.set(i, club.clone());
                proof {
                    assert(rows.deep_view() =~= before.update(i as int, club@));
                    lemma_replaced(before, club_key(), i as int, club@);
                    assert(club_key()(before[i as int]) == club@.id);
                    let j = choose|j: int|
                        0 <= j < before.len() && club_key()(#[trigger] before[j]) == club@.id;
                    if j < i {
                        assert(club_key()(before[j]) != club_key()(before[i as int]));
                    } else if i < j {
                        assert(club_key()(before[i as int]) != club_key()(before[j]));
                    }
                }
            },
            None => {
                rows.push(club.clone());
                proof {
                    assert(rows.deep_view() =~= before.push(club@));
                    lemma_pushed(before, club_key(), club@);
                }
            },
        }
        self.rows = rows;
        Ok(())
    }

    fn find_by_name(&self, club_name: &ClubName) -> (found: Result<Option<Club>, StoreError>)
        ensures
            found is Ok,
    {
        proof {
            use_type_invariant(self);
        }
        let mut i: usize = 0;
        while i < self.rows.len()
            invariant
                i <= self.rows.len(),
                distinct_keys(self.rows.deep_view(), club_key()),
                forall|k: int|
                    0 <= k < i ==> (#[trigger] self.rows.deep_view()[k]).name != club_name@,
            decreases self.rows.len() - i,
        {
            if self.rows[i].get_name() == club_name {
                proof {
                    lemma_row(self.rows.deep_view(), club_key(), i as int);
                }
                return Ok(Some(self.rows[i].clone()));
            }
            i += 1;
        }
        proof {
            let rows = self.rows.deep_view();
            assert forall|id: Seq<char>| #[trigger] self@.contains_key(id) implies self@[id].name
                != club_name@ by {
                let k = choose|k: int|
                    0 <= k < rows.len() && club_key()(#[trigger] rows[k]) == id;
                assert(rows[k].name != club_name@);
            }
        }
        Ok(None)
    }

    fn find_by_id(&self, id: &ClubId) -> (found: Result<Option<Club>, StoreError>)
        ensures
            found is Ok,
    {
        proof {
            use_type_invariant(self);
        }
        match self.position(id) {
            Some(i) => {
                proof {
                    lemma_row(self.rows.deep_view(), club_key(), i as int);
                }
                Ok(Some(self.rows[i].clone()))
            },
            None => Ok(None),
        }
    }

    /// The clubs come in the order in which they were first stored.
    fn find_all(&self) -> (found: Result<Vec<Club>, StoreError>)
        ensures
            found is Ok,
    {
        proof {
            use_type_invariant(self);
        }
        let ghost rows = self.rows.deep_view();
        let mut list: Vec<Club> = Vec::new();
        let mut i: usize = 0;
        while i < self.rows.len()
            invariant
                i <= self.rows.len(),
                rows == self.rows.deep_view(),
                list.len() == i,
                forall|k: int| 0 <= k < i ==> (#[trigger] list@[k])@ == rows[k],
            decreases self.rows.len() - i,
        {
            list.push(self.rows[i].clone());
            i += 1;
        }
        proof {
            assert(list.deep_view() =~= rows);
            assert forall|k: int| 0 <= k < rows.len() implies {
                &&& self@.contains_key((#[trigger] rows[k]).id)
                &&& self@[rows[k].id] == rows[k]
            } by {
                lemma_row(rows, club_key(), k);
            }
            assert forall|id: Seq<char>| #[trigger] self@.contains_key(id) implies exists|k: int|
                0 <= k < rows.len() && (#[trigger] rows[k]).id == id by {
                let k = choose|k: int|
                    0 <= k < rows.len() && club_key()(#[trigger] rows[k]) == id;
                assert(rows[k].id == id);
            }
        }
        Ok(list)
    }
}

} // verus!
