//! The use cases that concern clubs.

mod club_create_service;
mod club_join_service;
mod club_recommendation_service;

pub use club_create_service::{
    found_club, found_spec, founded, founded_for_certain, law_founding, new_club,
    ClubCreateCommand, ClubCreateService,
};
pub use club_join_service::{
    enrol, enrol_spec, is_closed_for, joined, joined_for_certain, known_members,
    known_premium_members, law_joining, law_selection_decides_admission, ClubJoinCommand,
    ClubJoinService,
};
pub use club_recommendation_service::{
    at_most, law_recommendations, projection, recommend, recommend_spec, worthy,
    ClubRecommendation, ClubRecommendationService, ClubRecommendationView, TOP,
};
