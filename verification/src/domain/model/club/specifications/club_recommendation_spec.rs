use vstd::prelude::*;
use crate::domain::model::club::entity::{Club, ClubView};

verus! {

/// How many people a club must hold to be recommended.
pub const RECOMMENDABLE_FROM: usize = 3;

/// Whether a club is worth recommending: it holds at least three people, the
/// owner among them.
pub open spec fn is_recommendable(club: ClubView) -> bool {
    club.count() >= RECOMMENDABLE_FROM
}

/// The recommendation rule.
pub struct ClubRecommendationSpec;

impl ClubRecommendationSpec {
    pub fn new() -> Self {
        Self {  }
    }

    /// Whether `club` is worth recommending.
    pub fn is_satisfied_by(&self, club: &Club) -> (worthy: bool)
        ensures
            worthy == is_recommendable(club@),
    {
        club.count_members() >= RECOMMENDABLE_FROM
    }
}

} // verus!
