//! How new users come into being.

mod user_factory;
mod user_factory_trait;

pub use user_factory::UserFactory;
pub use user_factory_trait::UserFactoryTrait;
