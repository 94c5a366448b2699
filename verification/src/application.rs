//! The use cases. Each service carries out one of them from start to end and
//! either completes it or leaves the stores as they were.

pub mod club;
pub mod user;
