//! The use cases that concern users.

mod user_delete_service;
mod user_downgrade_service;
mod user_get_info_service;
mod user_register_service;
mod user_update_info_service;
mod user_upgrade_service;

pub use user_delete_service::{
    delete_spec, deleted, law_delete_is_idempotent, UserDeleteCommand, UserDeleteService,
};
pub use user_downgrade_service::{UserDowngradeCommand, UserDowngradeService};
pub use user_get_info_service::{is_readable, UserData, UserGetInfoService};
pub use user_register_service::{
    law_known_name_is_refused, law_new_name_is_registered, law_registration, new_user,
    register_spec, register_user, registered, registered_for_certain, UserRegisterService,
};
pub use user_update_info_service::{
    update_spec, updated, UserUpdateCommand, UserUpdateInfoService,
};
pub use user_upgrade_service::{
    change_tier_spec, law_last_stored_tier_wins, tier_changed, UserUpgradeCommand,
    UserUpgradeService,
};
