use vstd::prelude::*;
use crate::domain::model::club::entity::{
    premium_count, Club, ClubId, ClubMembers, ClubMembersView, ClubView,
};
use crate::domain::model::club::repository::ClubRepositoryTrait;
use crate::domain::model::club::specifications::{
    admission_limit, is_closed_to_admission, ClubMembersFullSpec,
};
use crate::domain::model::user::entity::{User, UserId, UserView};
use crate::domain::model::user::repository::{is_selection, UserRepositoryTrait};
use crate::error::{DomainError, Limit, Missing, Subject};
use crate::validation::check_length_spec;

verus! {

/// What becomes of a club that the user `user` asks to join: the admission
/// rule, whose verdict is `closed`, is heard first, then the ceiling.
pub open spec fn enrol_spec(closed: bool, club: ClubView, user: Seq<char>) -> Result<
    ClubView,
    DomainError,
> {
    if closed {
        Err(DomainError::Capacity(Limit::Admission))
    } else {
        match club.join_spec(user) {
            (Ok(()), grown) => Ok(grown),
            (Err(e), _) => Err(e),
        }
    }
}

/// Decides whether `club` takes `user`, and returns the club with its new
/// member if it does. `owner` and `members` are the users behind the club's
/// owner and members.
pub fn enrol(club: Club, user: User, owner: User, members: Vec<User>) -> (enrolled: Result<
    Club,
    DomainError,
>)
    ensures
        match enrol_spec(
            is_closed_to_admission(
                ClubMembersView { id: club@.id, owner: owner@, members: members.deep_view() },
            ),
            club@,
            user@.id,
        ) {
            Ok(grown) => enrolled matches Ok(club) && club@ == grown,
            Err(e) => enrolled matches Err(refusal) && refusal == e,
        },
{
    let mut club = club;
    let club_members = ClubMembers::new(club.get_id().clone(), owner, members);
    let club_full_spec = ClubMembersFullSpec::new();
    if club_full_spec.is_satisfied_by(club_members) {
        return Err(DomainError::Capacity(Limit::Admission));
    }
    club.join(user)?;
    Ok(club)
}

/// The identities among `ids` under which `users` holds a user.
pub open spec fn known_members(users: Map<Seq<char>, UserView>, ids: Seq<Seq<char>>) -> Set<
    Seq<char>,
> {
    Set::new(|id: Seq<char>| ids.contains(id) && users.contains_key(id))
}

/// The identities among `ids` under which `users` holds a premium user.
pub open spec fn known_premium_members(
    users: Map<Seq<char>, UserView>,
    ids: Seq<Seq<char>>,
) -> Set<Seq<char>> {
    Set::new(|id: Seq<char>| ids.contains(id) && users.contains_key(id) && users[id].is_premium)
}

/// Whether `club` takes no further member, going by the users that `users`
/// holds: a member that is listed twice counts once, and one that `users`
/// does not hold counts not at all.
pub open spec fn is_closed_for(users: Map<Seq<char>, UserView>, club: ClubView) -> bool {
    known_members(users, club.members).len() >= admission_limit(
        known_premium_members(users, club.members).len(),
    )
}

/// The identities of those of `found` that satisfy `wanted`.
spec fn identities_where(found: Seq<UserView>, wanted: spec_fn(UserView) -> bool) -> Set<
    Seq<char>,
> {
    Set::new(
        |id: Seq<char>|
            exists|i: int| 0 <= i < found.len() && (#[trigger] found[i]).id == id && wanted(found[i]),
    )
}

proof fn lemma_count_by_identity(found: Seq<UserView>, wanted: spec_fn(UserView) -> bool)
    requires
        forall|i: int, j: int|
            0 <= i < j < found.len() ==> (#[trigger] found[i]).id != (#[trigger] found[j]).id,
    ensures
        identities_where(found, wanted).finite(),
        identities_where(found, wanted).len() == found.filter(wanted).len(),
    decreases found.len(),
{
    reveal(Seq::filter);
    if found.len() == 0 {
        assert(identities_where(found, wanted) =~= Set::<Seq<char>>::empty());
    } else {
        let front = found.drop_last();
        let last = found.last();
        assert forall|i: int, j: int| 0 <= i < j < front.len() implies (#[trigger] front[i]).id
            != (#[trigger] front[j]).id by {
            assert(found[i].id != found[j].id);
        }
        lemma_count_by_identity(front, wanted);
        let before = identities_where(front, wanted);
        let all = identities_where(found, wanted);
        assert(!before.contains(last.id)) by {
            if before.contains(last.id) {
                let i = choose|i: int|
                    0 <= i < front.len() && (#[trigger] front[i]).id == last.id && wanted(
                        front[i],
                    );
                assert(found[i].id != found[found.len() - 1].id);
            }
        }
        if wanted(last) {
            assert(all =~= before.insert(last.id)) by {
                assert forall|id: Seq<char>| all.contains(id) == before.insert(last.id).contains(
                    id,
                ) by {
                    if all.contains(id) {
                        let i = choose|i: int|
                            0 <= i < found.len() && (#[trigger] found[i]).id == id && wanted(
                                found[i],
                            );
                        if i < front.len() {
                            assert(front[i].id == id);
                        }
                    }
                    if before.contains(id) {
                        let i = choose|i: int|
                            0 <= i < front.len() && (#[trigger] front[i]).id == id && wanted(
                                front[i],
                            );
                        assert(found[i].id == id);
                    }
                    if id == last.id {
                        assert(found[found.len() - 1].id == id);
                    }
                }
            }
        } else {
            assert(all =~= before) by {
                assert forall|id: Seq<char>| all.contains(id) == before.contains(id) by {
                    if all.contains(id) {
                        let i = choose|i: int|
                            0 <= i < found.len() && (#[trigger] found[i]).id == id && wanted(
                                found[i],
                            );
                        assert(front[i].id == id);
                    }
                    if before.contains(id) {
                        let i = choose|i: int|
                            0 <= i < front.len() && (#[trigger] front[i]).id == id && wanted(
                                front[i],
                            );
                        assert(found[i].id == id);
                    }
                }
            }
        }
    }
}

proof fn lemma_filter_all(found: Seq<UserView>)
    ensures
        found.filter(|user: UserView| true) == found,
    decreases found.len(),
{
    reveal(Seq::filter);
    if found.len() > 0 {
        lemma_filter_all(found.drop_last());
        assert(found.drop_last().push(found.last()) =~= found);
    }
}

/// The order in which a store of users hands out the members of a club makes
/// no difference to the admission rule. Every such list holds as many users,
/// and as many premium users, as the store knows among the members.
pub proof fn law_selection_decides_admission(
    users: Map<Seq<char>, UserView>,
    club: ClubView,
    owner: UserView,
    found: Seq<UserView>,
)
    requires
        is_selection(users, club.members, found),
    ensures
        known_members(users, club.members).finite(),
        known_premium_members(users, club.members).finite(),
        found.len() == known_members(users, club.members).len(),
        premium_count(found) == known_premium_members(users, club.members).len(),
        is_closed_to_admission(ClubMembersView { id: club.id, owner, members: found })
            == is_closed_for(users, club),
{
    let ids = club.members;
    let any = |user: UserView| true;
    let premium = |user: UserView| user.is_premium;
    lemma_count_by_identity(found, any);
    lemma_filter_all(found);
    lemma_count_by_identity(found, premium);
    assert(identities_where(found, any) =~= known_members(users, ids)) by {
        assert forall|id: Seq<char>| identities_where(found, any).contains(id) == known_members(
            users,
            ids,
        ).contains(id) by {
            if known_members(users, ids).contains(id) {
                let k = choose|k: int| 0 <= k < ids.len() && ids[k] == id;
                assert(users.contains_key(ids[k]));
            }
        }
    }
    assert(identities_where(found, premium) =~= known_premium_members(users, ids)) by {
        assert forall|id: Seq<char>| identities_where(found, premium).contains(id)
            == known_premium_members(users, ids).contains(id) by {
            if known_premium_members(users, ids).contains(id) {
                let k = choose|k: int| 0 <= k < ids.len() && ids[k] == id;
                assert(users.contains_key(ids[k]));
                let i = choose|i: int| 0 <= i < found.len() && (#[trigger] found[i]).id == ids[k];
                assert(users[found[i].id] == found[i]);
            }
        }
    }
}

/// What a request to join returns and leaves behind where the stores never
/// fail. The checks come in this order: the user's identity must validate; a
/// user must be stored under it; the club's identity must validate; a club
/// must be stored under it; the club's owner must be stored; the club must
/// take the user.
pub open spec fn joined_for_certain(
    users: Map<Seq<char>, UserView>,
    before: Map<Seq<char>, ClubView>,
    user_id: Seq<char>,
    club_id: Seq<char>,
    done: Result<(), DomainError>,
    after: Map<Seq<char>, ClubView>,
) -> bool {
    match check_length_spec(user_id, UserId::MIN_LENGTH as nat) {
        Some(kind) => done == Err::<(), DomainError>(
            DomainError::Validation(Subject::UserId, kind),
        ) && after == before,
        None => if !users.contains_key(user_id) {
            done == Err::<(), DomainError>(DomainError::NotFound(Missing::User)) && after
                == before
        } else {
            match check_length_spec(club_id, ClubId::MIN_LENGTH as nat) {
                Some(kind) => done == Err::<(), DomainError>(
                    DomainError::Validation(Subject::ClubId, kind),
                ) && after == before,
                None => if !before.contains_key(club_id) {
                    done == Err::<(), DomainError>(DomainError::NotFound(Missing::Club))
                        && after == before
                } else if !users.contains_key(before[club_id].owner) {
                    done == Err::<(), DomainError>(DomainError::NotFound(Missing::Owner))
                        && after == before
                } else {
                    match enrol_spec(
                        is_closed_for(users, before[club_id]),
                        before[club_id],
                        user_id,
                    ) {
                        Ok(grown) => done is Ok && after == before.insert(club_id, grown),
                        Err(e) => done == Err::<(), DomainError>(e) && after == before,
                    }
                },
            }
        },
    }
}

/// Where the stores never fail, a stored user who asks to join a stored club
/// whose owner is stored is refused if the admission rule closes the club,
/// refused if the club has reached the ceiling, and taken otherwise: the club
/// is then stored with the user as its last member and is otherwise as it
/// was, and no other club has changed.
pub proof fn law_joining(
    users: Map<Seq<char>, UserView>,
    before: Map<Seq<char>, ClubView>,
    user_id: Seq<char>,
    club_id: Seq<char>,
    done: Result<(), DomainError>,
    after: Map<Seq<char>, ClubView>,
)
    requires
        joined_for_certain(users, before, user_id, club_id, done, after),
        user_id.len() >= UserId::MIN_LENGTH,
        club_id.len() >= ClubId::MIN_LENGTH,
        users.contains_key(user_id),
        before.contains_key(club_id),
        users.contains_key(before[club_id].owner),
    ensures
        is_closed_for(users, before[club_id]) ==> done == Err::<(), DomainError>(
            DomainError::Capacity(Limit::Admission),
        ) && after == before,
        !is_closed_for(users, before[club_id]) && before[club_id].is_full() ==> done == Err::<
            (),
            DomainError,
        >(DomainError::Capacity(Limit::Ceiling)) && after == before,
        !is_closed_for(users, before[club_id]) && !before[club_id].is_full() ==> {
            &&& done is Ok
            &&& after == before.insert(club_id, before[club_id].joined(user_id))
            &&& after[club_id].members.last() == user_id
            &&& after[club_id].count() == before[club_id].count() + 1
        },
{
}

/// What a request to join may return and leave behind where a store may
/// fail: what it would for certain, or a store failure and no change.
pub open spec fn joined(
    users: Map<Seq<char>, UserView>,
    before: Map<Seq<char>, ClubView>,
    reliable: bool,
    user_id: Seq<char>,
    club_id: Seq<char>,
    done: Result<(), DomainError>,
    after: Map<Seq<char>, ClubView>,
) -> bool {
    ||| joined_for_certain(users, before, user_id, club_id, done, after)
    ||| {
        &&& !reliable
        &&& done == Err::<(), DomainError>(DomainError::Store)
        &&& after == before
        &&& check_length_spec(user_id, UserId::MIN_LENGTH as nat) is None
    }
}

/// The request of a user to join a club.
pub struct ClubJoinCommand {
    user_id: String,
    club_id: String,
}

impl ClubJoinCommand {
    /// The identity of the user, as it was given.
    pub closed spec fn user_id(&self) -> Seq<char> {
        self.user_id@
    }

    /// The identity of the club, as it was given.
    pub closed spec fn club_id(&self) -> Seq<char> {
        self.club_id@
    }

    pub fn new(user_id: &str, club_id: &str) -> (command: Self)
        ensures
            command.user_id() == user_id@,
            command.club_id() == club_id@,
    {
        Self { user_id: user_id.to_owned(), club_id: club_id.to_owned() }
    }
}

/// The use case in which a user joins a club.
pub struct ClubJoinService<C: ClubRepositoryTrait, U: UserRepositoryTrait> {
    club_repository: C,
    user_repository: U,
}

impl<C: ClubRepositoryTrait, U: UserRepositoryTrait> ClubJoinService<C, U> {
    /// The store of clubs that this service writes to.
    pub closed spec fn clubs(&self) -> C {
        self.club_repository
    }

    /// The store of users that this service reads.
    pub closed spec fn users(&self) -> U {
        self.user_repository
    }

    /// Whether neither store can fail.
    pub open spec fn never_fails(&self) -> bool {
        self.clubs().never_fails() && self.users().never_fails()
    }

    pub fn new(club_repository: C, user_repository: U) -> (service: Self)
        ensures
            service.clubs() == club_repository,
            service.users() == user_repository,
    {
        Self { club_repository, user_repository }
    }

    /// The store of clubs, to read from.
    pub fn club_repository(&self) -> (repository: &C)
        ensures
            *repository == self.clubs(),
    {
        &self.club_repository
    }

    /// Gives the two stores back.
    pub fn into_repositories(self) -> (repositories: (C, U))
        ensures
            repositories.0 == self.clubs(),
            repositories.1 == self.users(),
    {
        (self.club_repository, self.user_repository)
    }

    /// Lets the user that the command names join the club that it names,
    /// if the club takes the user. Whenever the use case fails, the stores
    /// are left as they were.
    pub fn handle(&mut self, command: ClubJoinCommand) -> (done: Result<(), DomainError>)
        ensures
            final(self).users() == old(self).users(),
            final(self).clubs().never_fails() == old(self).clubs().never_fails(),
            joined(
                old(self).users()@,
                old(self).clubs()@,
                old(self).never_fails(),
                command.user_id(),
                command.club_id(),
                done,
                final(self).clubs()@,
            ),
    {
        let member_id = UserId::new(command.user_id.as_str())?;
        let user = match self.user_repository.find_by_id(&member_id) {
            Ok(Some(user)) => user,
            Ok(None) => {
                return Err(DomainError::NotFound(Missing::User));
            },
            Err(_) => {
                return Err(DomainError::Store);
            },
        };
        let club_id = ClubId::new(command.club_id.as_str())?;
        let club = match self.club_repository.find_by_id(&club_id) {
            Ok(Some(club)) => club,
            Ok(None) => {
                return Err(DomainError::NotFound(Missing::Club));
            },
            Err(_) => {
                return Err(DomainError::Store);
            },
        };
        let owner = match self.user_repository.find_by_id(club.get_owner_id()) {
            Ok(Some(owner)) => owner,
            Ok(None) => {
                return Err(DomainError::NotFound(Missing::Owner));
            },
            Err(_) => {
                return Err(DomainError::Store);
            },
        };
        let stored_ids = club.get_members();
        let member_ids = stored_ids.clone();
        assert(member_ids.deep_view() =~= club@.members) by {
            assert(member_ids.len() == stored_ids.len());
            assert forall|i: int| 0 <= i < member_ids.len() implies member_ids@[i]@
                == stored_ids@[i]@ by {
                assert(cloned(stored_ids@[i], member_ids@[i]));
            }
        }
        let members = match self.user_repository.batch_find(member_ids) {
            Ok(members) => members,
            Err(_) => {
                return Err(DomainError::Store);
            },
        };
        proof {
            law_selection_decides_admission(
                self.users()@,
                club@,
                owner@,
                members.deep_view(),
            );
        }
        let club = enrol(club, user, owner, members)?;
        match self.club_repository.save(&club) {
            Ok(()) => Ok(()),
            Err(_) => Err(DomainError::Store),
        }
    }
}

} // verus!
