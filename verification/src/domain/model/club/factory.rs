//! How new clubs come into being.

mod club_factory;
mod club_factory_trait;

pub use club_factory::ClubFactory;
pub use club_factory_trait::ClubFactoryTrait;
