//! What a store of users must offer.

mod user_repository_trait;

pub use user_repository_trait::{is_selection, name_taken, UserRepositoryTrait};
