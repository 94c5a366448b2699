//! The user aggregate and its value objects.

mod is_premium;
mod user;
mod user_id;
mod user_name;

pub use is_premium::UserIsPremium;
pub use user::{law_last_tier_change_wins, User, UserView};
pub use user_id::UserId;
pub use user_name::UserName;
