//! The rules that decide whether a club takes a member and whether it is
//! worth recommending.

mod club_members_full_spec;
mod club_recommendation_spec;

pub use club_members_full_spec::{
    admission_limit, is_closed_to_admission, law_admission, ClubMembersFullSpec,
    ORDINARY_LIMIT, PREMIUM_LIMIT,
};
pub use club_recommendation_spec::{
    is_recommendable, ClubRecommendationSpec, RECOMMENDABLE_FROM,
};
