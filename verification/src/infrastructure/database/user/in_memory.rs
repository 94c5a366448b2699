use vstd::prelude::*;
use crate::domain::model::user::entity::{User, UserId, UserName, UserView};
use crate::domain::model::user::repository::UserRepositoryTrait;
use crate::error::StoreError;
use crate::infrastructure::database::table::{
    distinct_keys, has_row, lemma_pushed, lemma_removed, lemma_replaced, lemma_row,
    lemma_table_size, table_of,
};

verus! {

/// The key of a row of users: the user's identity.
pub open spec fn user_key() -> spec_fn(UserView) -> Seq<char> {
    |user: UserView| user.id
}

/// A store of users that lives in memory and never fails.
pub struct InMemoryUserRepository {
    rows: Vec<User>,
}

impl InMemoryUserRepository {
    /// No two rows share an identity.
    #[verifier::type_invariant]
    spec fn well_formed(&self) -> bool {
        distinct_keys(self.rows.deep_view(), user_key())
    }

    /// An empty store.
    pub fn new() -> (store: Self)
        ensures
            store@ == Map::<Seq<char>, UserView>::empty(),
    {
        let store = Self { rows: Vec::new() };
        assert(store.rows.deep_view() =~= Seq::<UserView>::empty());
        assert(store@ =~= Map::<Seq<char>, UserView>::empty());
        store
    }

    /// How many users the store holds.
    pub fn len(&self) -> (count: usize)
        ensures
            self@.dom().finite(),
            count == self@.len(),
    {
        proof {
            use_type_invariant(self);
            lemma_table_size(self.rows.deep_view(), user_key());
        }
        self.rows.len()
    }

    /// Where the row with the identity `id` stands, if there is one.
    fn position(&self, id: &UserId) -> (at: Option<usize>)
        ensures
            match at {
                Some(i) => i < self.rows.len() && self.rows.deep_view()[i as int].id == id@,
                None => !has_row(self.rows.deep_view(), user_key(), id@),
            },
    {
        let mut i: usize = 0;
        while i < self.rows.len()
            invariant
                i <= self.rows.len(),
                forall|k: int| 0 <= k < i ==> (#[trigger] self.rows.deep_view()[k]).id != id@,
            decreases self.rows.len() - i,
        {
            if self.rows[i].get_id() == id {
                return Some(i);
            }
            i += 1;
        }
        None
    }
}

impl UserRepositoryTrait for InMemoryUserRepository {
    closed spec fn view(&self) -> Map<Seq<char>, UserView> {
        table_of(self.rows.deep_view(), user_key())
    }

    open spec fn never_fails(&self) -> bool {
        true
    }

    fn save(&mut self, user: &User) -> (done: Result<(), StoreError>)
        ensures
            done is Ok,
    {
        proof {
            use_type_invariant(&*self);
        }
        let ghost before = self.rows.deep_view();
        let at = self.position(user.get_id());
        let mut rows = Vec::new();
        std::mem::swap(&mut rows, &mut self.rows);
        match at {
            Some(i) => {
                rows.set(i, user.clone());
                proof {
                    assert(rows.deep_view() =~= before.update(i as int, user@));
                    lemma_replaced(before, user_key(), i as int, user@);
                }
            },
            None => {
                rows.push(user.clone());
                proof {
                    assert(rows.deep_view() =~= before.push(user@));
                    lemma_pushed(before, user_key(), user@);
                }
            },
        }
        self.rows = rows;
        Ok(())
    }

    fn find_by_name(&self, user_name: &UserName) -> (found: Result<Option<User>, StoreError>)
        ensures
            found is Ok,
    {
        proof {
            use_type_invariant(self);
        }
        let mut i: usize = 0;
        while i < self.rows.len()
            invariant
                i <= self.rows.len(),
                distinct_keys(self.rows.deep_view(), user_key()),
                forall|k: int|
                    0 <= k < i ==> (#[trigger] self.rows.deep_view()[k]).name != user_name@,
            decreases self.rows.len() - i,
        {
            if self.rows[i].get_name() == user_name {
                proof {
                    lemma_row(self.rows.deep_view(), user_key(), i as int);
                }
                return Ok(Some(self.rows[i].clone()));
            }
            i += 1;
        }
        proof {
            let rows = self.rows.deep_view();
            assert forall|id: Seq<char>| #[trigger] self@.contains_key(id) implies self@[id].name
                != user_name@ by {
                let k = choose|k: int|
                    0 <= k < rows.len() && user_key()(#[trigger] rows[k]) == id;
                assert(rows[k].name != user_name@);
            }
        }
        Ok(None)
    }

    fn find_by_id(&self, id: &UserId) -> (found: Result<Option<User>, StoreError>)
        ensures
            found is Ok,
    {
        proof {
            use_type_invariant(self);
        }
        match self.position(id) {
            Some(i) => {
                proof {
                    lemma_row(self.rows.deep_view(), user_key(), i as int);
                }
                Ok(Some(self.rows[i].clone()))
            },
            None => Ok(None),
        }
    }

    fn delete(&mut self, id: &UserId) -> (done: Result<(), StoreError>)
        ensures
            done is Ok,
    {
        proof {
            use_type_invariant(&*self);
        }
        let ghost before = self.rows.deep_view();
        match self.position(id) {
            Some(i) => {
                let mut rows = Vec::new();
                std::mem::swap(&mut rows, &mut self.rows);
                rows.remove(i);
                proof {
                    assert(rows.deep_view() =~= before.remove(i as int));
                    lemma_removed(before, user_key(), i as int);
                }
                self.rows = rows;
            },
            None => {
                assert(self@.remove(id@) =~= self@);
            },
        }
        Ok(())
    }

    /// The users come in the order in which `users` first names them.
    fn batch_find(&self, users: Vec<UserId>) -> (found: Result<Vec<User>, StoreError>)
        ensures
            found is Ok,
    {
        proof {
            use_type_invariant(self);
        }
        let ghost rows = self.rows.deep_view();
        let ghost ids = users.deep_view();
        let mut list: Vec<User> = Vec::new();
        let mut n: usize = 0;
        while n < users.len()
            invariant
                n <= users.len(),
                rows == self.rows.deep_view(),
                ids == users.deep_view(),
                distinct_keys(rows, user_key()),
                list.len() <= n,
                forall|k: int|
                    0 <= k < list.len() ==> {
                        &&& self@.contains_key((#[trigger] list.deep_view()[k]).id)
                        &&& self@[list.deep_view()[k].id] == list.deep_view()[k]
                        &&& ids.contains(list.deep_view()[k].id)
                    },
                forall|k: int, l: int|
                    0 <= k < l < list.len() ==> (#[trigger] list.deep_view()[k]).id != (
                    #[trigger] list.deep_view()[l]).id,
                forall|m: int|
                    0 <= m < n && self@.contains_key(#[trigger] ids[m]) ==> exists|k: int|
                        0 <= k < list.len() && (#[trigger] list.deep_view()[k]).id == ids[m],
            decreases users.len() - n,
        {
            let ghost earlier = list.deep_view();
            assert(ids[n as int] == users[n as int]@);
            if !listed(&list, &users[n]) {
                if let Some(i) = self.position(&users[n]) {
                    list.push(self.rows[i].clone());
                    proof {
                        lemma_row(rows, user_key(), i as int);
                        assert(list.deep_view() =~= earlier.push(rows[i as int]));
                        assert(list.deep_view()[earlier.len() as int].id == ids[n as int]);
                        assert forall|m: int|
                            0 <= m < n + 1 && self@.contains_key(
                                #[trigger] ids[m],
                            ) implies exists|k: int|
                            0 <= k < list.len() && (#[trigger] list.deep_view()[k]).id
                                == ids[m] by {
                            if m < n {
                                let k = choose|k: int|
                                    0 <= k < earlier.len() && (#[trigger] earlier[k]).id == ids[m];
                                assert(list.deep_view()[k].id == ids[m]);
                            }
                        }
                    }
                }
            }
            n += 1;
        }
        Ok(list)
    }
}

/// Whether a user with the identity `id` is in `list`.
fn listed(list: &Vec<User>, id: &UserId) -> (among: bool)
    ensures
        among == exists|k: int| 0 <= k < list.len() && (#[trigger] list.deep_view()[k]).id == id@,
{
    let mut i: usize = 0;
    while i < list.len()
        invariant
            i <= list.len(),
            forall|k: int| 0 <= k < i ==> (#[trigger] list.deep_view()[k]).id != id@,
        decreases list.len() - i,
    {
        if list[i].get_id() == id {
            assert(list.deep_view()[i as int].id == id@);
            return true;
        }
        i += 1;
    }
    false
}

} // verus!
