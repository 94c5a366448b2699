//! Users, clubs and the rules that govern club membership.
//!
//! The crate is organised in layers. `domain` holds the value objects, the
//! two aggregates, their factories, the rules that decide admission and
//! recommendation, and the traits that a store of users or of clubs must
//! implement. `application` holds one service per use case. `infrastructure`
//! holds the stores in memory. `interface` holds the conversions between
//! aggregates and the primitives that a database keeps of them. `validation`
//! and `identity` hold what the value objects and the factories have from
//! outside crates.

pub mod error;
pub mod validation;
pub mod identity;
pub mod domain;
pub mod infrastructure;
pub mod application;
pub mod interface;
