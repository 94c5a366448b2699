//! The domain layer: what a user and a club are, and what may happen to them.

pub mod model;
