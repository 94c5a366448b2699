use club_membership::application::user::UserRegisterService;
use club_membership::domain::model::user::entity::UserName;
use club_membership::domain::model::user::factory::UserFactory;
use club_membership::domain::model::user::repository::UserRepositoryTrait;
use club_membership::error::{DomainError, Subject, Taken, ValidationErrorKind};
use club_membership::infrastructure::database::user::InMemoryUserRepository;

#[test]
fn can_register_min_user_name() {
    let user_repository = InMemoryUserRepository::new();
    let user_factory = UserFactory::new();
    let mut user_register_service = UserRegisterService::new(user_repository, user_factory);

    let min_name = "abc";
    user_register_service.handle(min_name).unwrap();

    let target_name = UserName::new(min_name).unwrap();
    let target = user_register_service
        .user_repository()
        .find_by_name(&target_name)
        .unwrap();

    assert!(target.is_some());
}

#[test]
fn cannot_register_name_shorter_than_min_length() {
    let user_repository = InMemoryUserRepository::new();
    let user_factory = UserFactory::new();
    let mut user_register_service = UserRegisterService::new(user_repository, user_factory);

    let short_name = "ab";
    let error_msg = match user_register_service.handle(short_name) {
        Ok(_) => panic!(),
        Err(e) => e.message(),
    };

    assert_eq!(&error_msg, "The length of a user name must be greater than 3");
}

#[test]
fn cannot_register_dupulicate_name() {
    let user_repository = InMemoryUserRepository::new();
    let user_factory = UserFactory::new();
    let mut user_register_service = UserRegisterService::new(user_repository, user_factory);

    let min_name = "duplicate";
    user_register_service.handle(min_name).unwrap();

    let duplicate_name = min_name;
    let res = user_register_service.handle(duplicate_name);

    let error_msg = match res {
        Ok(_) => panic!(),
        Err(e) => e.message(),
    };

    assert_eq!(&error_msg, "User already exists");
}

#[test]
fn registration_errors_are_typed_and_leave_the_store_alone() {
    let mut service =
        UserRegisterService::new(InMemoryUserRepository::new(), UserFactory::new());
    assert_eq!(
        service.handle(""),
        Err(DomainError::Validation(Subject::UserName, ValidationErrorKind::EmptyValue))
    );
    assert_eq!(
        service.handle("ab"),
        Err(DomainError::Validation(Subject::UserName, ValidationErrorKind::TooShort))
    );
    assert_eq!(service.user_repository().len(), 0);
    assert_eq!(service.handle("alice"), Ok(()));
    assert_eq!(service.handle("alice"), Err(DomainError::Duplicate(Taken::UserName)));
    assert_eq!(service.user_repository().len(), 1);
    assert_eq!(service.handle("bob"), Ok(()));
    assert_eq!(service.user_repository().len(), 2);
}

#[test]
fn a_registered_user_is_ordinary_and_carries_a_random_uuid() {
    let mut service =
        UserRegisterService::new(InMemoryUserRepository::new(), UserFactory::new());
    service.handle("alice").unwrap();
    let users = service.into_repository();
    let alice = users
        .find_by_name(&UserName::new("alice").unwrap())
        .unwrap()
        .unwrap();
    assert_eq!(alice.get_name().to_str(), "alice");
    assert!(!alice.get_is_premium().to_inner());
    let id: Vec<char> = alice.get_id().to_str().chars().collect();
    assert_eq!(id.len(), 36);
    for (i, c) in id.iter().enumerate() {
        if i == 8 || i == 13 || i == 18 || i == 23 {
            assert_eq!(*c, '-');
        } else {
            assert!(c.is_ascii_digit() || ('a'..='f').contains(c));
        }
    }
    assert_eq!(id[14], '4');
    let same = users.find_by_id(alice.get_id()).unwrap().unwrap();
    assert_eq!(same.get_name().to_str(), "alice");
}
