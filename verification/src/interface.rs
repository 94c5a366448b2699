//! Where the domain meets what lies outside it.

pub mod repository;
