//! Questions about clubs that only a store can answer.

mod club_service;

pub use club_service::ClubService;
