//! What a store of clubs must offer.

mod repository_trait;

pub use repository_trait::{club_name_taken, is_listing, ClubRepositoryTrait};
