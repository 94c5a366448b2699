use club_membership::application::user::{
    UserDeleteCommand, UserDeleteService, UserDowngradeCommand, UserDowngradeService,
    UserGetInfoService, UserRegisterService, UserUpdateCommand, UserUpdateInfoService,
    UserUpgradeCommand, UserUpgradeService,
};
use club_membership::domain::model::user::entity::{User, UserId, UserIsPremium, UserName};
use club_membership::domain::model::user::factory::{UserFactory, UserFactoryTrait};
use club_membership::domain::model::user::repository::UserRepositoryTrait;
use club_membership::domain::model::user::service::UserService;
use club_membership::error::{DomainError, Missing, Subject, Taken, ValidationErrorKind};
use club_membership::infrastructure::database::user::InMemoryUserRepository;

fn user(id: &str, name: &str, premium: bool) -> User {
    User::new(
        UserId::new(id).unwrap(),
        UserName::new(name).unwrap(),
        UserIsPremium::new(premium),
    )
    .unwrap()
}

fn store(users: &[(&str, &str, bool)]) -> InMemoryUserRepository {
    let mut repository = InMemoryUserRepository::new();
    for (id, name, premium) in users {
        repository.save(&user(id, name, *premium)).unwrap();
    }
    repository
}

fn by_id(repository: &InMemoryUserRepository, id: &str) -> Option<User> {
    repository.find_by_id(&UserId::new(id).unwrap()).unwrap()
}

#[test]
fn factory_makes_ordinary_users_with_distinct_identities() {
    let factory = UserFactory::new();
    let a = factory.create(UserName::new("alice").unwrap()).unwrap();
    let b = factory.create(UserName::new("alice").unwrap()).unwrap();
    assert_eq!(a.get_name().to_str(), "alice");
    assert!(!a.get_is_premium().to_inner());
    assert_eq!(a.get_id().to_str().chars().count(), 36);
    assert_ne!(a.get_id(), b.get_id());
}

#[test]
fn user_service_knows_stored_names_and_identities() {
    let repository = store(&[("u-1", "alice", false)]);
    let service = UserService::new(&repository);
    assert!(service.exists_by_name(&user("other", "alice", true)));
    assert!(!service.exists_by_name(&user("u-1", "bob", false)));
    assert!(service.exists_by_id(&user("u-1", "someone", false)));
    assert!(!service.exists_by_id(&user("u-2", "alice", false)));
}

#[test]
fn update_renames_a_stored_user() {
    let mut service = UserUpdateInfoService::new(store(&[("u-1", "alice", true)]));
    assert_eq!(service.handle(UserUpdateCommand::new("u-1", Some("alicia"))), Ok(()));
    let users = service.into_repository();
    let found = by_id(&users, "u-1").unwrap();
    assert_eq!(found.get_name().to_str(), "alicia");
    assert!(found.get_is_premium().to_inner());
    assert_eq!(users.len(), 1);
}

#[test]
fn update_without_a_name_changes_nothing() {
    let mut service = UserUpdateInfoService::new(store(&[("u-1", "alice", false)]));
    assert_eq!(service.handle(UserUpdateCommand::new("u-1", None)), Ok(()));
    let users = service.into_repository();
    assert_eq!(by_id(&users, "u-1").unwrap().get_name().to_str(), "alice");
    assert_eq!(users.len(), 1);
}

#[test]
fn update_fails_in_the_order_of_its_checks() {
    let mut service = UserUpdateInfoService::new(store(&[
        ("u-1", "alice", false),
        ("u-2", "bob", false),
    ]));
    assert_eq!(
        service.handle(UserUpdateCommand::new("", Some("ab"))),
        Err(DomainError::Validation(Subject::UserId, ValidationErrorKind::EmptyValue))
    );
    assert_eq!(
        service.handle(UserUpdateCommand::new("u-9", Some("ab"))),
        Err(DomainError::NotFound(Missing::User))
    );
    assert_eq!(
        service.handle(UserUpdateCommand::new("u-1", Some("ab"))),
        Err(DomainError::Validation(Subject::UserName, ValidationErrorKind::TooShort))
    );
    assert_eq!(
        service.handle(UserUpdateCommand::new("u-1", Some(""))),
        Err(DomainError::Validation(Subject::UserName, ValidationErrorKind::EmptyValue))
    );
    assert_eq!(
        service.handle(UserUpdateCommand::new("u-1", Some("bob"))),
        Err(DomainError::Duplicate(Taken::UserName))
    );
    // The user's own present name counts as taken too.
    assert_eq!(
        service.handle(UserUpdateCommand::new("u-1", Some("alice"))),
        Err(DomainError::Duplicate(Taken::UserName))
    );
    let users = service.into_repository();
    assert_eq!(by_id(&users, "u-1").unwrap().get_name().to_str(), "alice");
    assert_eq!(by_id(&users, "u-2").unwrap().get_name().to_str(), "bob");
}

#[test]
fn delete_removes_a_stored_user() {
    let mut service = UserDeleteService::new(store(&[
        ("u-1", "alice", false),
        ("u-2", "bob", false),
    ]));
    assert_eq!(service.handle(UserDeleteCommand::new("u-1")), Ok(()));
    let users = service.into_repository();
    assert!(by_id(&users, "u-1").is_none());
    assert!(by_id(&users, "u-2").is_some());
    assert_eq!(users.len(), 1);
}

#[test]
fn delete_of_an_absent_user_succeeds() {
    let mut service = UserDeleteService::new(store(&[("u-1", "alice", false)]));
    assert_eq!(service.handle(UserDeleteCommand::new("u-9")), Ok(()));
    assert_eq!(service.handle(UserDeleteCommand::new("u-1")), Ok(()));
    assert_eq!(service.handle(UserDeleteCommand::new("u-1")), Ok(()));
    assert_eq!(service.user_repository().len(), 0);
}

#[test]
fn delete_refuses_an_empty_identity() {
    let mut service = UserDeleteService::new(store(&[("u-1", "alice", false)]));
    assert_eq!(
        service.handle(UserDeleteCommand::new("")),
        Err(DomainError::Validation(Subject::UserId, ValidationErrorKind::EmptyValue))
    );
    assert_eq!(service.user_repository().len(), 1);
}

#[test]
fn upgrade_then_downgrade_leaves_the_user_ordinary() {
    for start in [false, true] {
        let mut up = UserUpgradeService::new(store(&[("u-1", "alice", start)]));
        assert_eq!(up.handle(UserUpgradeCommand::new("u-1")), Ok(()));
        assert!(by_id(up.user_repository(), "u-1").unwrap().get_is_premium().to_inner());
        let mut down = UserDowngradeService::new(up.into_repository());
        assert_eq!(down.handle(UserDowngradeCommand::new("u-1")), Ok(()));
        let users = down.into_repository();
        let found = by_id(&users, "u-1").unwrap();
        assert!(!found.get_is_premium().to_inner());
        assert_eq!(found.get_name().to_str(), "alice");
    }
}

#[test]
fn downgrade_then_upgrade_leaves_the_user_premium() {
    for start in [false, true] {
        let mut down = UserDowngradeService::new(store(&[("u-1", "alice", start)]));
        assert_eq!(down.handle(UserDowngradeCommand::new("u-1")), Ok(()));
        assert_eq!(down.handle(UserDowngradeCommand::new("u-1")), Ok(()));
        assert!(!by_id(down.user_repository(), "u-1").unwrap().get_is_premium().to_inner());
        let mut up = UserUpgradeService::new(down.into_repository());
        assert_eq!(up.handle(UserUpgradeCommand::new("u-1")), Ok(()));
        assert_eq!(up.handle(UserUpgradeCommand::new("u-1")), Ok(()));
        assert!(by_id(up.user_repository(), "u-1").unwrap().get_is_premium().to_inner());
    }
}

#[test]
fn tier_changes_need_a_stored_user() {
    let mut up = UserUpgradeService::new(store(&[("u-1", "alice", false)]));
    assert_eq!(
        up.handle(UserUpgradeCommand::new("u-9")),
        Err(DomainError::NotFound(Missing::User))
    );
    assert_eq!(
        up.handle(UserUpgradeCommand::new("")),
        Err(DomainError::Validation(Subject::UserId, ValidationErrorKind::EmptyValue))
    );
    let mut down = UserDowngradeService::new(up.into_repository());
    assert_eq!(
        down.handle(UserDowngradeCommand::new("u-9")),
        Err(DomainError::NotFound(Missing::User))
    );
    assert_eq!(
        down.handle(UserDowngradeCommand::new("")),
        Err(DomainError::Validation(Subject::UserId, ValidationErrorKind::EmptyValue))
    );
    assert!(!by_id(down.user_repository(), "u-1").unwrap().get_is_premium().to_inner());
}

#[test]
fn get_info_tells_identity_and_name() {
    let service = UserGetInfoService::new(store(&[("u-1", "alice", true)]));
    let told = service.handle("u-1").unwrap();
    assert_eq!(told.get_id(), "u-1");
    assert_eq!(told.get_name(), "alice");
    assert!(service.handle("u-2").is_none());
    assert!(service.handle("").is_none());
}

#[test]
fn registered_users_can_be_updated_and_deleted() {
    let mut register =
        UserRegisterService::new(InMemoryUserRepository::new(), UserFactory::new());
    register.handle("alice").unwrap();
    let users = register.into_repository();
    let alice = users.find_by_name(&UserName::new("alice").unwrap()).unwrap().unwrap();
    let id = alice.get_id().to_string();

    let mut update = UserUpdateInfoService::new(users);
    assert_eq!(update.handle(UserUpdateCommand::new(&id, Some("alicia"))), Ok(()));
    let users = update.into_repository();
    assert!(users.find_by_name(&UserName::new("alice").unwrap()).unwrap().is_none());
    assert!(users.find_by_name(&UserName::new("alicia").unwrap()).unwrap().is_some());

    let mut delete = UserDeleteService::new(users);
    assert_eq!(delete.handle(UserDeleteCommand::new(&id)), Ok(()));
    assert_eq!(delete.user_repository().len(), 0);
}
