//! The club aggregate, its value objects and its read model.

mod club;
mod club_id;
mod club_members;
mod club_name;

pub use club::{law_ceiling, Club, ClubView, CLUB_CEILING};
pub use club_id::ClubId;
pub use club_members::{premium_count, ClubMembers, ClubMembersView};
pub use club_name::ClubName;
