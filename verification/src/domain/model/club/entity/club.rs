use vstd::prelude::*;
use crate::domain::model::user::entity::{User, UserId};
use crate::error::{DomainError, Limit, Subject};
use crate::validation::{check_length, check_length_spec};
use super::{ClubId, ClubName};

verus! {

/// The most people that a club may hold, its owner among them.
pub const CLUB_CEILING: usize = 30;

/// What a club is, as plain values. The owner is not among the members.
pub struct ClubView {
    pub id: Seq<char>,
    pub name: Seq<char>,
    pub owner: Seq<char>,
    pub members: Seq<Seq<char>>,
}

impl ClubView {
    /// How many people the club holds: its members and its owner.
    pub open spec fn count(self) -> nat {
        self.members.len() + 1
    }

    /// Whether the club has reached the ceiling.
    pub open spec fn is_full(self) -> bool {
        self.count() >= CLUB_CEILING
    }

    /// This club under another name.
    pub open spec fn renamed(self, name: Seq<char>) -> ClubView {
        ClubView { name, ..self }
    }

    /// This club with one more member, at the end of the list.
    pub open spec fn joined(self, user: Seq<char>) -> ClubView {
        ClubView { members: self.members.push(user), ..self }
    }

    /// What an attempt of `user` to join returns, and what the club is
    /// afterwards: a full club refuses and stays as it is; any other club
    /// takes the user, whether or not the user is a member already.
    pub open spec fn join_spec(self, user: Seq<char>) -> (Result<(), DomainError>, ClubView) {
        if self.is_full() {
            (Err(DomainError::Capacity(Limit::Ceiling)), self)
        } else {
            (Ok(()), self.joined(user))
        }
    }
}

/// A club grows by exactly one with each join until it holds as many people
/// as the ceiling allows, and then refuses every join. In particular, a club
/// of twenty-eight members takes one more and then counts thirty, and a club
/// of twenty-nine members takes none.
pub proof fn law_ceiling(club: ClubView, user: Seq<char>)
    ensures
        club.count() < CLUB_CEILING ==> {
            &&& club.join_spec(user).0 is Ok
            &&& club.join_spec(user).1.count() == club.count() + 1
            &&& club.join_spec(user).1.count() <= CLUB_CEILING
            &&& club.join_spec(user).1.members.last() == user
        },
        club.count() >= CLUB_CEILING ==> {
            &&& club.join_spec(user).0 == Err::<(), DomainError>(
                DomainError::Capacity(Limit::Ceiling),
            )
            &&& club.join_spec(user).1 == club
        },
        club.members.len() == 28 ==> club.join_spec(user).0 is Ok && club.join_spec(
            user,
        ).1.count() == 30,
        club.members.len() == 29 ==> club.join_spec(user).0 is Err,
{
}

/// The club aggregate: an identity, a name, an owner and the members in the
/// order in which they joined. A club never holds more people than the
/// ceiling allows.
#[derive(Debug)]
pub struct Club {
    id: ClubId,
    name: ClubName,
    members: Vec<UserId>,
    owner: UserId,
}

impl View for Club {
    type V = ClubView;

    closed spec fn view(&self) -> ClubView {
        ClubView {
            id: self.id@,
            name: self.name@,
            owner: self.owner@,
            members: self.members.deep_view(),
        }
    }
}

impl DeepView for Club {
    type V = ClubView;

    open spec fn deep_view(&self) -> ClubView {
        self@
    }
}

impl Club {
    /// A club holds no more people than the ceiling allows.
    #[verifier::type_invariant]
    pub open spec fn is_valid(&self) -> bool {
        self@.count() <= CLUB_CEILING
    }

    /// Assembles a club from its parts. The value objects are valid by
    /// construction; the list of members is refused where, with the owner, it
    /// would exceed the ceiling.
    pub fn new(id: ClubId, name: ClubName, members: Vec<UserId>, owner: UserId) -> (made: Result<
        Self,
        DomainError,
    >)
        ensures
            match made {
                Ok(club) => {
                    &&& members.len() + 1 <= CLUB_CEILING
                    &&& club@ == (ClubView {
                        id: id@,
                        name: name@,
                        owner: owner@,
                        members: members.deep_view(),
                    })
                },
                Err(e) => {
                    &&& members.len() + 1 > CLUB_CEILING
                    &&& e == DomainError::Capacity(Limit::Ceiling)
                },
            },
    {
        if members.len() >= CLUB_CEILING {
            return Err(DomainError::Capacity(Limit::Ceiling));
        }
        let data = Self { id, name, members, owner };
        match data.validate() {
            Ok(()) => Ok(data),
            Err(e) => Err(e),
        }
    }

    /// Checks every part of the aggregate again. It is run after each
    /// construction and each change, and never finds a fault.
    pub fn validate(&self) -> (verdict: Result<(), DomainError>)
        ensures
            verdict == self@.validation(),
            verdict is Ok,
    {
        proof {
            use_type_invariant(self);
        }
        if let Some(kind) = check_length(self.id.to_str(), ClubId::MIN_LENGTH) {
            return Err(DomainError::Validation(Subject::ClubId, kind));
        }
        if let Some(kind) = check_length(self.name.to_str(), ClubName::MIN_LENGTH) {
            return Err(DomainError::Validation(Subject::ClubName, kind));
        }
        if let Some(kind) = check_length(self.owner.to_str(), UserId::MIN_LENGTH) {
            return Err(DomainError::Validation(Subject::UserId, kind));
        }
        if self.members.len() >= CLUB_CEILING {
            return Err(DomainError::Capacity(Limit::Ceiling));
        }
        Ok(())
    }

    pub fn get_name(&self) -> (name: &ClubName)
        ensures
            name@ == self@.name,
    {
        &self.name
    }

    pub fn get_id(&self) -> (id: &ClubId)
        ensures
            id@ == self@.id,
    {
        &self.id
    }

    pub fn get_owner_id(&self) -> (owner: &UserId)
        ensures
            owner@ == self@.owner,
    {
        &self.owner
    }

    pub fn get_members(&self) -> (members: &Vec<UserId>)
        ensures
            members.deep_view() == self@.members,
            members.len() + 1 <= CLUB_CEILING,
    {
        proof {
            use_type_invariant(self);
        }
        &self.members
    }

    /// Gives the club another name and leaves the rest as it was.
    pub fn change_name(&mut self, name: ClubName) -> (done: Result<(), DomainError>)
        ensures
            done is Ok,
            final(self)@ == old(self)@.renamed(name@),
    {
        proof {
            use_type_invariant(&*self);
        }
        self.name = name;
        self.validate()
    }

    /// How many people the club holds: its members and its owner.
    pub fn count_members(&self) -> (count: usize)
        ensures
            count == self@.count(),
            count <= CLUB_CEILING,
    {
        proof {
            use_type_invariant(self);
        }
        let owner_num: usize = 1;
        self.members.len() + owner_num
    }

    /// Whether the club has reached the ceiling.
    pub fn is_full(&self) -> (full: bool)
        ensures
            full == self@.is_full(),
    {
        self.count_members() >= CLUB_CEILING
    }

    /// Takes `user` as a member, at the end of the list, unless the club is
    /// full. A user who is a member already is taken once more.
    pub fn join(&mut self, user: User) -> (done: Result<(), DomainError>)
        ensures
            (done, final(self)@) == old(self)@.join_spec(user@.id),
    {
        if self.is_full() {
            return Err(DomainError::Capacity(Limit::Ceiling));
        }
        let ghost before = self.members.deep_view();
        let mut members = Vec::new();
        std::mem::swap(&mut members, &mut self.members);
        members.push(user.get_id().clone());
        assert(members.deep_view() =~= before.push(user@.id));
        self.members = members;
        Ok(())
    }
}

impl Clone for Club {
    fn clone(&self) -> (copy: Self)
        ensures
            copy@ == self@,
    {
        proof {
            use_type_invariant(self);
        }
        let mut members: Vec<UserId> = Vec::new();
        let mut i: usize = 0;
        while i < self.members.len()
            invariant
                i <= self.members.len(),
                members.len() == i,
                forall|k: int| 0 <= k < i ==> (#[trigger] members@[k])@ == self.members@[k]@,
            decreases self.members.len() - i,
        {
            members.push(self.members[i].clone());
            i += 1;
        }
        assert(members.deep_view() =~= self.members.deep_view());
        Self {
            id: self.id.clone(),
            name: self.name.clone(),
            members,
            owner: self.owner.clone(),
        }
    }
}

impl ClubView {
    /// What a check of every part of the club finds. The identity is looked
    /// at first, then the name, the owner, and at last the number of people;
    /// the first part that does not validate is reported.
    pub open spec fn validation(self) -> Result<(), DomainError> {
        match check_length_spec(self.id, ClubId::MIN_LENGTH as nat) {
            Some(kind) => Err(DomainError::Validation(Subject::ClubId, kind)),
            None => match check_length_spec(self.name, ClubName::MIN_LENGTH as nat) {
                Some(kind) => Err(DomainError::Validation(Subject::ClubName, kind)),
                None => match check_length_spec(self.owner, UserId::MIN_LENGTH as nat) {
                    Some(kind) => Err(DomainError::Validation(Subject::UserId, kind)),
                    None => if self.count() > CLUB_CEILING {
                        Err(DomainError::Capacity(Limit::Ceiling))
                    } else {
                        Ok(())
                    },
                },
            },
        }
    }
}

} // verus!
