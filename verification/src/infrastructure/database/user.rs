mod in_memory;

pub use in_memory::{user_key, InMemoryUserRepository};
