mod in_memory;

pub use in_memory::{club_key, put, InMemoryClubRepository};
