use vstd::prelude::*;
use crate::domain::model::user::entity::{User, UserView};
use super::ClubId;

verus! {

/// How many of `members` are premium.
pub open spec fn premium_count(members: Seq<UserView>) -> nat {
    members.filter(|member: UserView| member.is_premium).len()
}

/// A club with the users behind its identities, as plain values.
pub struct ClubMembersView {
    pub id: Seq<char>,
    pub owner: UserView,
    pub members: Seq<UserView>,
}

impl ClubMembersView {
    /// How many members there are, the owner not counted.
    pub open spec fn count(self) -> nat {
        self.members.len()
    }

    /// How many premium users there are: among the members and, if
    /// `contains_owner`, the owner.
    pub open spec fn premium(self, contains_owner: bool) -> nat {
        premium_count(self.members) + if contains_owner && self.owner.is_premium {
            1nat
        } else {
            0nat
        }
    }
}

/// A club together with the users that own it and belong to it. It is put
/// together when a rule has to look at the users themselves, and is never
/// stored.
pub struct ClubMembers {
    id: ClubId,
    /// The members, and after them the owner.
    people: Vec<User>,
}

impl View for ClubMembers {
    type V = ClubMembersView;

    closed spec fn view(&self) -> ClubMembersView {
        ClubMembersView {
            id: self.id@,
            owner: self.people.deep_view().last(),
            members: self.people.deep_view().drop_last(),
        }
    }
}

impl ClubMembers {
    /// The owner is there.
    #[verifier::type_invariant]
    spec fn has_owner(&self) -> bool {
        self.people.len() >= 1
    }

    pub fn new(id: ClubId, owner: User, members: Vec<User>) -> (made: Self)
        ensures
            made@ == (ClubMembersView {
                id: id@,
                owner: owner@,
                members: members.deep_view(),
            }),
    {
        let mut people = members;
        people.push(owner);
        assert(people.deep_view().drop_last() =~= members.deep_view());
        assert(people.deep_view().last() == owner@);
        Self { id, people }
    }

    /// How many premium users there are: among the members and, if
    /// `contains_owner`, the owner.
    pub fn count_premium_members(&self, contains_owner: bool) -> (count: usize)
        ensures
            count == self@.premium(contains_owner),
    {
        proof {
            use_type_invariant(self);
        }
        let ghost members = self.people.deep_view().drop_last();
        let ghost premium = |member: UserView| member.is_premium;
        let last = self.people.len() - 1;
        let mut count: usize = 0;
        let mut i: usize = 0;
        proof {
            reveal(Seq::filter);
            assert(members.take(0).filter(premium).len() == 0);
        }
        while i < last
            invariant
                i <= last,
                last + 1 == self.people.len(),
                members == self.people.deep_view().drop_last(),
                premium == (|member: UserView| member.is_premium),
                count == members.take(i as int).filter(premium).len(),
                count <= i,
            decreases last - i,
        {
            proof {
                reveal(Seq::filter);
                assert(members.take(i + 1).drop_last() =~= members.take(i as int));
                assert(members.take(i + 1).last() == members[i as int]);
                assert(members[i as int] == self.people@[i as int]@);
            }
            if self.people[i].get_is_premium().to_inner() {
                count += 1;
            }
            i += 1;
        }
        assert(members.take(i as int) =~= members);
        if contains_owner && self.people[last].get_is_premium().to_inner() {
            count + 1
        } else {
            count
        }
    }

    /// How many members there are, the owner not counted.
    pub fn count_members(&self) -> (count: usize)
        ensures
            count == self@.count(),
    {
        proof {
            use_type_invariant(self);
        }
        self.people.len() - 1
    }
}

} // verus!
