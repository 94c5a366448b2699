//! Stores that implement the repository traits, and how a database is reached.

pub mod database;
