use vstd::prelude::*;
use crate::domain::model::club::entity::{premium_count, ClubMembers, ClubMembersView};

verus! {

/// How many members a club without a premium member may have.
pub const ORDINARY_LIMIT: usize = 3;

/// How many members a club with a premium member may have.
pub const PREMIUM_LIMIT: usize = 50;

/// How many members a club may have, given how many of them are premium.
pub open spec fn admission_limit(premium: nat) -> nat {
    if premium < 1 {
        ORDINARY_LIMIT as nat
    } else {
        PREMIUM_LIMIT as nat
    }
}

/// Whether a club takes no further member: it has as many members as its
/// premium members, the owner not counted among them, allow.
pub open spec fn is_closed_to_admission(club: ClubMembersView) -> bool {
    club.count() >= admission_limit(club.premium(false))
}

/// A club without a premium member is closed from three members on, a club
/// with one from fifty on; whether the owner is premium makes no difference.
pub proof fn law_admission(club: ClubMembersView)
    ensures
        premium_count(club.members) == 0 ==> (is_closed_to_admission(club) <==> club.members.len()
            >= 3),
        premium_count(club.members) >= 1 ==> (is_closed_to_admission(club) <==> club.members.len()
            >= 50),
        is_closed_to_admission(club) == is_closed_to_admission(
            ClubMembersView { owner: club.owner.upgraded(), ..club },
        ),
        is_closed_to_admission(club) == is_closed_to_admission(
            ClubMembersView { owner: club.owner.downgraded(), ..club },
        ),
{
}

/// The admission rule: a club that has reached the limit of its tier is
/// full.
pub struct ClubMembersFullSpec;

impl ClubMembersFullSpec {
    pub fn new() -> Self {
        Self {  }
    }

    /// Whether `members` is full, so that a request to join must be refused.
    pub fn is_satisfied_by(&self, members: ClubMembers) -> (full: bool)
        ensures
            full == is_closed_to_admission(members@),
    {
        let premium_num = members.count_premium_members(false);
        let limit = if premium_num < 1 {
            ORDINARY_LIMIT
        } else {
            PREMIUM_LIMIT
        };
        members.count_members() >= limit
    }
}

} // verus!
