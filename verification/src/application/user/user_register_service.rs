use vstd::prelude::*;
use crate::domain::model::user::entity::{User, UserName, UserView};
use crate::domain::model::user::factory::UserFactoryTrait;
use crate::domain::model::user::repository::{name_taken, UserRepositoryTrait};
use crate::domain::model::user::service::UserService;
use crate::error::{DomainError, Subject, Taken};
use crate::validation::check_length_spec;

verus! {

/// What registering `user` with a store that never fails returns, and what
/// the store holds afterwards: a user whose name is taken is refused and the
/// store is left alone; any other user is stored under its identity.
pub open spec fn register_spec(store: Map<Seq<char>, UserView>, user: UserView) -> (
    Result<(), DomainError>,
    Map<Seq<char>, UserView>,
) {
    if name_taken(store, user.name) {
        (Err(DomainError::Duplicate(Taken::UserName)), store)
    } else {
        (Ok(()), store.insert(user.id, user))
    }
}

/// A name that is already in use is refused as a duplicate, and the store
/// stays as it was.
pub proof fn law_known_name_is_refused(store: Map<Seq<char>, UserView>, user: UserView)
    requires
        name_taken(store, user.name),
    ensures
        register_spec(store, user).0 == Err::<(), DomainError>(
            DomainError::Duplicate(Taken::UserName),
        ),
        register_spec(store, user).1 == store,
{
}

/// A name that was never seen is registered, and the store then holds a user
/// of that name: under the new identity it holds exactly the new user.
pub proof fn law_new_name_is_registered(store: Map<Seq<char>, UserView>, user: UserView)
    requires
        !name_taken(store, user.name),
    ensures
        register_spec(store, user).0 is Ok,
        name_taken(register_spec(store, user).1, user.name),
        register_spec(store, user).1.contains_key(user.id),
        register_spec(store, user).1[user.id] == user,
{
    let after = register_spec(store, user).1;
    assert(after.contains_key(user.id) && after[user.id].name == user.name);
}

/// Stores a newly made user unless its name is taken.
///
/// A store that fails to say whether the name is taken is treated as one in
/// which it is free.
pub fn register_user<R: UserRepositoryTrait>(repository: &mut R, user: &User) -> (done: Result<
    (),
    DomainError,
>)
    ensures
        final(repository).never_fails() == old(repository).never_fails(),
        old(repository).never_fails() ==> (done, final(repository)@) == register_spec(
            old(repository)@,
            user@,
        ),
        match done {
            Ok(()) => final(repository)@ == old(repository)@.insert(user@.id, user@),
            Err(DomainError::Duplicate(Taken::UserName)) => {
                &&& name_taken(old(repository)@, user@.name)
                &&& final(repository)@ == old(repository)@
            },
            Err(DomainError::Store) => {
                &&& !old(repository).never_fails()
                &&& final(repository)@ == old(repository)@
            },
            Err(_) => false,
        },
{
    let known = UserService::new(&*repository).exists_by_name(user);
    if known {
        return Err(DomainError::Duplicate(Taken::UserName));
    }
    match repository.save(user) {
        Ok(()) => Ok(()),
        Err(_) => Err(DomainError::Store),
    }
}

/// A user as it is when it has just been registered: an ordinary member.
pub open spec fn new_user(id: Seq<char>, name: Seq<char>) -> UserView {
    UserView { id, name, is_premium: false }
}

/// What registering a user named `name` returns and leaves behind where
/// neither the store nor the factory fail. The name must validate and must
/// not be borne by any stored user. The new user is stored under an identity
/// that the factory issues.
pub open spec fn registered_for_certain(
    before: Map<Seq<char>, UserView>,
    issues: spec_fn(Seq<char>) -> bool,
    name: Seq<char>,
    done: Result<(), DomainError>,
    after: Map<Seq<char>, UserView>,
) -> bool {
    match check_length_spec(name, UserName::MIN_LENGTH as nat) {
        Some(kind) => done == Err::<(), DomainError>(
            DomainError::Validation(Subject::UserName, kind),
        ) && after == before,
        None => if name_taken(before, name) {
            done == Err::<(), DomainError>(DomainError::Duplicate(Taken::UserName)) && after
                == before
        } else {
            done is Ok && exists|id: Seq<char>|
                issues(id) && #[trigger] before.insert(id, new_user(id, name)) == after
        },
    }
}

/// Where neither the store nor the factory fail, registering under a name that
/// a stored user bears fails as a duplicate and changes nothing, and
/// registering under any other name of three characters or more succeeds and
/// leaves a user of that name in the store.
pub proof fn law_registration(
    before: Map<Seq<char>, UserView>,
    issues: spec_fn(Seq<char>) -> bool,
    name: Seq<char>,
    done: Result<(), DomainError>,
    after: Map<Seq<char>, UserView>,
)
    requires
        registered_for_certain(before, issues, name, done, after),
        name.len() >= UserName::MIN_LENGTH,
    ensures
        name_taken(before, name) ==> done == Err::<(), DomainError>(
            DomainError::Duplicate(Taken::UserName),
        ) && after == before,
        !name_taken(before, name) ==> done is Ok && name_taken(after, name),
{
    if !name_taken(before, name) {
        let id = choose|id: Seq<char>|
            issues(id) && #[trigger] before.insert(id, new_user(id, name)) == after;
        assert(after.contains_key(id) && after[id].name == name);
    }
}

/// What registering a user may return and leave behind where the store or
/// the factory may fail: what it would for certain; or a failure of the
/// store or of the factory, and no change; or, where the store could not say
/// whether the name is taken, the new user stored all the same.
pub open spec fn registered(
    before: Map<Seq<char>, UserView>,
    issues: spec_fn(Seq<char>) -> bool,
    reliable: bool,
    name: Seq<char>,
    done: Result<(), DomainError>,
    after: Map<Seq<char>, UserView>,
) -> bool {
    ||| registered_for_certain(before, issues, name, done, after)
    ||| {
        &&& !reliable
        &&& after == before
        &&& check_length_spec(name, UserName::MIN_LENGTH as nat) is None
        &&& done matches Err(e)
        &&& (e is Store || e is Validation)
    }
    ||| {
        &&& !reliable
        &&& done is Ok
        &&& check_length_spec(name, UserName::MIN_LENGTH as nat) is None
        &&& exists|id: Seq<char>|
            issues(id) && #[trigger] before.insert(id, new_user(id, name)) == after
    }
}

/// The use case that registers a new user under a given name.
pub struct UserRegisterService<R: UserRepositoryTrait, F: UserFactoryTrait> {
    user_repository: R,
    user_factory: F,
}

impl<R: UserRepositoryTrait, F: UserFactoryTrait> UserRegisterService<R, F> {
    /// The store that this service writes to.
    pub closed spec fn repository(&self) -> R {
        self.user_repository
    }

    /// The factory that makes the new users.
    pub closed spec fn factory(&self) -> F {
        self.user_factory
    }

    /// Whether neither the store nor the factory can fail.
    pub open spec fn never_fails(&self) -> bool {
        self.repository().never_fails() && self.factory().never_fails()
    }

    pub fn new(user_repository: R, user_factory: F) -> (service: Self)
        ensures
            service.repository() == user_repository,
            service.factory() == user_factory,
    {
        Self { user_repository, user_factory }
    }

    /// The store, to read from.
    pub fn user_repository(&self) -> (repository: &R)
        ensures
            *repository == self.repository(),
    {
        &self.user_repository
    }

    /// Gives the store back.
    pub fn into_repository(self) -> (repository: R)
        ensures
            repository == self.repository(),
    {
        self.user_repository
    }

    /// Registers a user named `name`.
    ///
    /// The name is validated first; then the factory makes the user; then
    /// the user is stored unless its name is taken. Whenever the use case
    /// fails, the store is left as it was.
    pub fn handle(&mut self, name: &str) -> (done: Result<(), DomainError>)
        ensures
            final(self).factory() == old(self).factory(),
            final(self).repository().never_fails() == old(self).repository().never_fails(),
            registered(
                old(self).repository()@,
                |id: Seq<char>| old(self).factory().may_issue(id),
                old(self).never_fails(),
                name@,
                done,
                final(self).repository()@,
            ),
    {
        let ghost issues = |id: Seq<char>| old(self).factory().may_issue(id);
        let name = UserName::new(name)?;
        let ghost wanted = name@;
        let user = match self.user_factory.create(name) {
            Ok(user) => user,
            Err(e) => {
                return Err(e);
            },
        };
        let done = register_user(&mut self.user_repository, &user);
        proof {
            if done is Ok {
                assert(user@ == new_user(user@.id, wanted));
                assert(issues(user@.id) && old(self).repository()@.insert(
                    user@.id,
                    new_user(user@.id, wanted),
                ) == self.repository()@);
            }
        }
        done
    }
}

} // verus!
