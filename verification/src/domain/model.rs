pub mod club;
pub mod user;
