pub mod club;
pub mod shared;
pub mod table;
pub mod user;
