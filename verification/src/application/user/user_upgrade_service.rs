use vstd::prelude::*;
use crate::domain::model::user::entity::{UserId, UserView};
use crate::domain::model::user::repository::UserRepositoryTrait;
use crate::error::{DomainError, Missing, Subject};
use crate::validation::check_length_spec;

verus! {

/// What setting the tier of the user `id` returns from a store that never
/// fails, and what the store holds afterwards.
pub open spec fn change_tier_spec(store: Map<Seq<char>, UserView>, id: Seq<char>, premium: bool)
    -> (Result<(), DomainError>, Map<Seq<char>, UserView>) {
    match check_length_spec(id, UserId::MIN_LENGTH as nat) {
        Some(kind) => (Err(DomainError::Validation(Subject::UserId, kind)), store),
        None => if store.contains_key(id) {
            let user = if premium {
                store[id].upgraded()
            } else {
                store[id].downgraded()
            };
            (Ok(()), store.insert(id, user))
        } else {
            (Err(DomainError::NotFound(Missing::User)), store)
        },
    }
}

/// Of two tier changes to one stored user, carried out one after the other,
/// only the second shows: the store ends as if the first had never happened.
pub proof fn law_last_stored_tier_wins(
    store: Map<Seq<char>, UserView>,
    id: Seq<char>,
    first: bool,
    second: bool,
)
    requires
        check_length_spec(id, UserId::MIN_LENGTH as nat) is None,
        store.contains_key(id),
    ensures
        change_tier_spec(store, id, first).0 is Ok,
        change_tier_spec(change_tier_spec(store, id, first).1, id, second) == change_tier_spec(
            store,
            id,
            second,
        ),
        change_tier_spec(change_tier_spec(store, id, first).1, id, second).1[id].is_premium
            == second,
{
    let between = change_tier_spec(store, id, first).1;
    let direct = change_tier_spec(store, id, second).1;
    let chained = change_tier_spec(between, id, second).1;
    assert(chained =~= direct);
}

/// What a tier change may return and leave behind in a store that may fail:
/// what it would in one that never fails, or a store failure and no change.
pub open spec fn tier_changed(
    before: Map<Seq<char>, UserView>,
    reliable: bool,
    id: Seq<char>,
    premium: bool,
    done: Result<(), DomainError>,
    after: Map<Seq<char>, UserView>,
) -> bool {
    ||| (done, after) == change_tier_spec(before, id, premium)
    ||| {
        &&& !reliable
        &&& done == Err::<(), DomainError>(DomainError::Store)
        &&& after == before
        &&& check_length_spec(id, UserId::MIN_LENGTH as nat) is None
    }
}

/// The request to make a user premium.
pub struct UserUpgradeCommand {
    id: String,
}

impl UserUpgradeCommand {
    /// The identity of the user, as it was given.
    pub closed spec fn id(&self) -> Seq<char> {
        self.id@
    }

    pub fn new(id: &str) -> (command: Self)
        ensures
            command.id() == id@,
    {
        Self { id: id.to_owned() }
    }
}

/// The use case that makes a user premium.
pub struct UserUpgradeService<R: UserRepositoryTrait> {
    user_repository: R,
}

impl<R: UserRepositoryTrait> UserUpgradeService<R> {
    /// The store that this service writes to.
    pub closed spec fn repository(&self) -> R {
        self.user_repository
    }

    pub fn new(user_repository: R) -> (service: Self)
        ensures
            service.repository() == user_repository,
    {
        Self { user_repository }
    }

    /// The store, to read from.
    pub fn user_repository(&self) -> (repository: &R)
        ensures
            *repository == self.repository(),
    {
        &self.user_repository
    }

    /// Gives the store back.
    pub fn into_repository(self) -> (repository: R)
        ensures
            repository == self.repository(),
    {
        self.user_repository
    }

    /// Loads the user that the command names, makes it premium and stores it
    /// again.
    pub fn handle(&mut self, command: UserUpgradeCommand) -> (done: Result<(), DomainError>)
        ensures
            final(self).repository().never_fails() == old(self).repository().never_fails(),
            tier_changed(
                old(self).repository()@,
                old(self).repository().never_fails(),
                command.id(),
                true,
                done,
                final(self).repository()@,
            ),
    {
        let target_id = UserId::new(command.id.as_str())?;
        let found = match self.user_repository.find_by_id(&target_id) {
            Ok(found) => found,
            Err(_) => {
                return Err(DomainError::Store);
            },
        };
        let mut user = match found {
            Some(user) => user,
            None => {
                return Err(DomainError::NotFound(Missing::User));
            },
        };
        user.upgrade()?;
        match self.user_repository.save(&user) {
            Ok(()) => Ok(()),
            Err(_) => Err(DomainError::Store),
        }
    }
}

} // verus!
