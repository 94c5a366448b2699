use club_membership::domain::model::club::entity::{Club, ClubId, ClubName};
use club_membership::domain::model::club::repository::ClubRepositoryTrait;
use club_membership::domain::model::club::service::ClubService;
use club_membership::domain::model::user::entity::{User, UserId, UserIsPremium, UserName};
use club_membership::domain::model::user::repository::UserRepositoryTrait;
use club_membership::infrastructure::database::club::InMemoryClubRepository;
use club_membership::infrastructure::database::user::InMemoryUserRepository;
use club_membership::interface::repository::club::{club_from_primitives, club_to_primitives};
use club_membership::interface::repository::user::{user_from_primitives, user_to_primitives};
use club_membership::error::{DomainError, Limit, Subject, ValidationErrorKind};

fn user(id: &str, name: &str, premium: bool) -> User {
    User::new(
        UserId::new(id).unwrap(),
        UserName::new(name).unwrap(),
        UserIsPremium::new(premium),
    )
    .unwrap()
}

fn club(id: &str, name: &str, owner: &str, members: &[&str]) -> Club {
    Club::new(
        ClubId::new(id).unwrap(),
        ClubName::new(name).unwrap(),
        members.iter().map(|m| UserId::new(m).unwrap()).collect(),
        UserId::new(owner).unwrap(),
    )
    .unwrap()
}

#[test]
fn user_store_saves_finds_and_deletes() {
    let mut users = InMemoryUserRepository::new();
    assert_eq!(users.len(), 0);
    users.save(&user("u-1", "alice", false)).unwrap();
    users.save(&user("u-2", "bob", true)).unwrap();
    assert_eq!(users.len(), 2);
    let alice = users.find_by_id(&UserId::new("u-1").unwrap()).unwrap().unwrap();
    assert_eq!(alice.get_name().to_str(), "alice");
    let bob = users.find_by_name(&UserName::new("bob").unwrap()).unwrap().unwrap();
    assert_eq!(bob.get_id().to_str(), "u-2");
    assert!(bob.get_is_premium().to_inner());
    assert!(users.find_by_id(&UserId::new("u-3").unwrap()).unwrap().is_none());
    assert!(users.find_by_name(&UserName::new("carol").unwrap()).unwrap().is_none());
    users.delete(&UserId::new("u-1").unwrap()).unwrap();
    assert!(users.find_by_id(&UserId::new("u-1").unwrap()).unwrap().is_none());
    assert_eq!(users.len(), 1);
    users.delete(&UserId::new("u-1").unwrap()).unwrap();
    assert_eq!(users.len(), 1);
}

#[test]
fn user_store_replaces_a_user_saved_again() {
    let mut users = InMemoryUserRepository::new();
    users.save(&user("u-1", "alice", false)).unwrap();
    users.save(&user("u-1", "alicia", true)).unwrap();
    assert_eq!(users.len(), 1);
    let found = users.find_by_id(&UserId::new("u-1").unwrap()).unwrap().unwrap();
    assert_eq!(found.get_name().to_str(), "alicia");
    assert!(found.get_is_premium().to_inner());
    assert!(users.find_by_name(&UserName::new("alice").unwrap()).unwrap().is_none());
}

#[test]
fn user_store_batch_find_gives_each_stored_user_once() {
    let mut users = InMemoryUserRepository::new();
    users.save(&user("u-1", "alice", false)).unwrap();
    users.save(&user("u-2", "bob", true)).unwrap();
    users.save(&user("u-3", "carol", false)).unwrap();
    let asked = ["u-3", "u-9", "u-1", "u-3"]
        .iter()
        .map(|id| UserId::new(id).unwrap())
        .collect();
    let found = users.batch_find(asked).unwrap();
    let mut names: Vec<String> = found.iter().map(|u| u.get_name().to_string()).collect();
    names.sort();
    assert_eq!(names, vec!["alice".to_string(), "carol".to_string()]);
    assert!(users.batch_find(Vec::new()).unwrap().is_empty());
}

#[test]
fn club_store_saves_finds_and_lists() {
    let mut clubs = InMemoryClubRepository::new();
    assert_eq!(clubs.len(), 0);
    clubs.save(&club("c-1", "Chess Club", "u-1", &[])).unwrap();
    clubs.save(&club("c-2", "Go Club", "u-2", &["u-1"])).unwrap();
    assert_eq!(clubs.len(), 2);
    let chess = clubs.find_by_name(&ClubName::new("Chess Club").unwrap()).unwrap().unwrap();
    assert_eq!(chess.get_id().to_str(), "c-1");
    let go = clubs.find_by_id(&ClubId::new("c-2").unwrap()).unwrap().unwrap();
    assert_eq!(go.get_name().to_str(), "Go Club");
    assert_eq!(go.get_members().len(), 1);
    assert_eq!(go.get_members()[0].to_str(), "u-1");
    assert!(clubs.find_by_id(&ClubId::new("c-3").unwrap()).unwrap().is_none());
    assert!(clubs.find_by_name(&ClubName::new("Bridge").unwrap()).unwrap().is_none());
    let all = clubs.find_all().unwrap();
    let listed: Vec<String> = all.iter().map(|c| c.get_id().to_string()).collect();
    assert_eq!(listed, vec!["c-1".to_string(), "c-2".to_string()]);
}

#[test]
fn club_store_replaces_a_club_saved_again() {
    let mut clubs = InMemoryClubRepository::new();
    clubs.save(&club("c-1", "Chess Club", "u-1", &[])).unwrap();
    clubs.save(&club("c-1", "Chess Club", "u-1", &["u-2"])).unwrap();
    assert_eq!(clubs.len(), 1);
    let found = clubs.find_by_id(&ClubId::new("c-1").unwrap()).unwrap().unwrap();
    assert_eq!(found.get_members().len(), 1);
}

#[test]
fn club_store_lists_clubs_in_the_order_of_their_first_saving() {
    let mut clubs = InMemoryClubRepository::new();
    clubs.save(&club("c-2", "Go Club", "u-2", &[])).unwrap();
    clubs.save(&club("c-1", "Chess Club", "u-1", &[])).unwrap();
    clubs.save(&club("c-3", "Bridge Club", "u-3", &[])).unwrap();
    clubs.save(&club("c-2", "Go Circle", "u-2", &["u-1"])).unwrap();
    let listed: Vec<String> =
        clubs.find_all().unwrap().iter().map(|c| c.get_name().to_string()).collect();
    assert_eq!(
        listed,
        vec!["Go Circle".to_string(), "Chess Club".to_string(), "Bridge Club".to_string()]
    );
}

#[test]
fn club_service_knows_stored_names() {
    let mut clubs = InMemoryClubRepository::new();
    clubs.save(&club("c-1", "Chess Club", "u-1", &[])).unwrap();
    let service = ClubService::new(&clubs);
    assert!(service.exists_by_name(&club("c-9", "Chess Club", "u-2", &[])));
    assert!(!service.exists_by_name(&club("c-1", "Go Club", "u-1", &[])));
}

#[test]
fn user_primitives_round_trip() {
    let row = user_to_primitives(&user("u-1", "alice", true));
    assert_eq!(row, ("u-1".to_string(), "alice".to_string(), true));
    let back = user_from_primitives(&row.0, &row.1, row.2).unwrap();
    assert_eq!(back.get_id().to_str(), "u-1");
    assert_eq!(back.get_name().to_str(), "alice");
    assert!(back.get_is_premium().to_inner());
}

#[test]
fn user_primitives_are_validated_in_order() {
    assert_eq!(
        user_from_primitives("", "ab", false).err(),
        Some(DomainError::Validation(Subject::UserId, ValidationErrorKind::EmptyValue))
    );
    assert_eq!(
        user_from_primitives("u-1", "ab", false).err(),
        Some(DomainError::Validation(Subject::UserName, ValidationErrorKind::TooShort))
    );
    assert_eq!(
        user_from_primitives("u-1", "", false).err(),
        Some(DomainError::Validation(Subject::UserName, ValidationErrorKind::EmptyValue))
    );
}

#[test]
fn club_primitives_round_trip() {
    let row = club_to_primitives(&club("c-1", "Chess Club", "u-1", &["u-2", "u-3"]));
    assert_eq!(row.0, "c-1");
    assert_eq!(row.1, "Chess Club");
    assert_eq!(row.2, "u-1");
    assert_eq!(row.3, vec!["u-2".to_string(), "u-3".to_string()]);
    let back = club_from_primitives(&row.0, &row.1, &row.2, &row.3).unwrap();
    assert_eq!(back.get_id().to_str(), "c-1");
    assert_eq!(back.get_name().to_str(), "Chess Club");
    assert_eq!(back.get_owner_id().to_str(), "u-1");
    assert_eq!(back.count_members(), 3);
    assert_eq!(back.get_members()[1].to_str(), "u-3");
}

#[test]
fn club_primitives_are_validated_in_order() {
    let s = |text: &str| text.to_string();
    let many: Vec<String> = (0..30).map(|i| format!("u-{}", i)).collect();
    assert_eq!(
        club_from_primitives(&s(""), &s("ab"), &s(""), &vec![s("")]).err(),
        Some(DomainError::Validation(Subject::ClubId, ValidationErrorKind::EmptyValue))
    );
    assert_eq!(
        club_from_primitives(&s("c-1"), &s("ab"), &s(""), &vec![s("")]).err(),
        Some(DomainError::Validation(Subject::ClubName, ValidationErrorKind::TooShort))
    );
    assert_eq!(
        club_from_primitives(&s("c-1"), &s("Chess"), &s(""), &vec![s("")]).err(),
        Some(DomainError::Validation(Subject::UserId, ValidationErrorKind::EmptyValue))
    );
    assert_eq!(
        club_from_primitives(&s("c-1"), &s("Chess"), &s("u-1"), &vec![s("u-2"), s("")]).err(),
        Some(DomainError::Validation(Subject::UserId, ValidationErrorKind::EmptyValue))
    );
    assert_eq!(
        club_from_primitives(&s("c-1"), &s("Chess"), &s("u-1"), &many).err(),
        Some(DomainError::Capacity(Limit::Ceiling))
    );
    assert!(club_from_primitives(&s("c-1"), &s("Chess"), &s("u-1"), &many[..29].to_vec()).is_ok());
}
