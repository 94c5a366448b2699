//! The user aggregate and everything that serves it.

pub mod entity;
pub mod factory;
pub mod repository;
pub mod service;
