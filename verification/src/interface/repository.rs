//! How aggregates are written down as storage primitives and read back.

pub mod club;
pub mod user;
