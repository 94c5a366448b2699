//! Questions about users that only a store can answer.

mod user_service;

pub use user_service::UserService;
