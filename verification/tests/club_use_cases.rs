use club_membership::application::club::{
    enrol, found_club, recommend, ClubCreateCommand, ClubCreateService, ClubJoinCommand,
    ClubJoinService, ClubRecommendation, ClubRecommendationService,
};
use club_membership::application::user::{register_user, UserRegisterService};
use club_membership::domain::model::club::entity::{Club, ClubId, ClubName};
use club_membership::domain::model::club::factory::{ClubFactory, ClubFactoryTrait};
use club_membership::domain::model::club::repository::ClubRepositoryTrait;
use club_membership::domain::model::user::entity::{User, UserId, UserIsPremium, UserName};
use club_membership::domain::model::user::factory::UserFactory;
use club_membership::domain::model::user::repository::UserRepositoryTrait;
use club_membership::error::{DomainError, Limit, Missing, Subject, Taken, ValidationErrorKind};
use club_membership::infrastructure::database::club::InMemoryClubRepository;
use club_membership::infrastructure::database::user::InMemoryUserRepository;

fn user(id: &str, name: &str, premium: bool) -> User {
    User::new(
        UserId::new(id).unwrap(),
        UserName::new(name).unwrap(),
        UserIsPremium::new(premium),
    )
    .unwrap()
}

fn club(id: &str, name: &str, owner: &str, members: &[String]) -> Club {
    Club::new(
        ClubId::new(id).unwrap(),
        ClubName::new(name).unwrap(),
        members.iter().map(|m| UserId::new(m).unwrap()).collect(),
        UserId::new(owner).unwrap(),
    )
    .unwrap()
}

fn names(count: usize) -> Vec<String> {
    (0..count).map(|i| format!("m-{}", i)).collect()
}

/// A store holding the owner `owner`, the candidate `new`, and `count` members
/// `m-0`, `m-1`, ..., of which the first `premium` are premium.
fn users_with_members(count: usize, premium: usize) -> InMemoryUserRepository {
    let mut users = InMemoryUserRepository::new();
    users.save(&user("owner", "the owner", false)).unwrap();
    users.save(&user("new", "newcomer", false)).unwrap();
    for (i, id) in names(count).iter().enumerate() {
        users.save(&user(id, "a member", i < premium)).unwrap();
    }
    users
}

fn clubs_with(club: &Club) -> InMemoryClubRepository {
    let mut clubs = InMemoryClubRepository::new();
    clubs.save(club).unwrap();
    clubs
}

fn members_of(clubs: &InMemoryClubRepository, id: &str) -> Vec<String> {
    clubs
        .find_by_id(&ClubId::new(id).unwrap())
        .unwrap()
        .unwrap()
        .get_members()
        .iter()
        .map(|m| m.to_string())
        .collect()
}

#[test]
fn club_factory_makes_empty_clubs_owned_by_the_user() {
    let factory = ClubFactory::new();
    let a = factory.create(ClubName::new("Chess Club").unwrap(), user("u-1", "alice", false));
    let a = a.unwrap();
    let b = factory
        .create(ClubName::new("Chess Club").unwrap(), user("u-1", "alice", false))
        .unwrap();
    assert_eq!(a.get_name().to_str(), "Chess Club");
    assert_eq!(a.get_owner_id().to_str(), "u-1");
    assert_eq!(a.count_members(), 1);
    assert_eq!(a.get_id().to_str().chars().count(), 36);
    assert_ne!(a.get_id(), b.get_id());
}

#[test]
fn alice_founds_a_club_and_bob_joins_it() {
    let mut register =
        UserRegisterService::new(InMemoryUserRepository::new(), UserFactory::new());
    register.handle("alice").unwrap();
    register.handle("bob").unwrap();
    let users = register.into_repository();
    let alice = users.find_by_name(&UserName::new("alice").unwrap()).unwrap().unwrap();
    let bob = users.find_by_name(&UserName::new("bob").unwrap()).unwrap().unwrap();
    let alice_id = alice.get_id().to_string();
    let bob_id = bob.get_id().to_string();

    let mut create =
        ClubCreateService::new(InMemoryClubRepository::new(), ClubFactory::new(), users);
    assert_eq!(create.handle(ClubCreateCommand::new(&alice_id, "Chess Club")), Ok(()));
    let (clubs, users) = create.into_repositories();
    let chess = clubs.find_by_name(&ClubName::new("Chess Club").unwrap()).unwrap().unwrap();
    let club_id = chess.get_id().to_string();
    assert_eq!(chess.get_owner_id().to_str(), alice_id);
    assert_eq!(chess.get_members().len(), 0);

    let mut join = ClubJoinService::new(clubs, users);
    assert_eq!(join.handle(ClubJoinCommand::new(&bob_id, &club_id)), Ok(()));
    let found = join
        .club_repository()
        .find_by_id(&ClubId::new(&club_id).unwrap())
        .unwrap()
        .unwrap();
    let members: Vec<String> = found.get_members().iter().map(|m| m.to_string()).collect();
    assert_eq!(members, vec![bob_id]);
    assert_eq!(found.get_owner_id().to_str(), alice_id);
    assert_eq!(found.get_name().to_str(), "Chess Club");
}

#[test]
fn create_fails_in_the_order_of_its_checks() {
    let mut users = InMemoryUserRepository::new();
    users.save(&user("u-1", "alice", false)).unwrap();
    let clubs = clubs_with(&club("c-1", "Chess Club", "u-1", &[]));
    let mut create = ClubCreateService::new(clubs, ClubFactory::new(), users);
    assert_eq!(
        create.handle(ClubCreateCommand::new("", "ab")),
        Err(DomainError::Validation(Subject::UserId, ValidationErrorKind::EmptyValue))
    );
    assert_eq!(
        create.handle(ClubCreateCommand::new("u-9", "ab")),
        Err(DomainError::NotFound(Missing::User))
    );
    assert_eq!(
        create.handle(ClubCreateCommand::new("u-1", "ab")),
        Err(DomainError::Validation(Subject::ClubName, ValidationErrorKind::TooShort))
    );
    assert_eq!(
        create.handle(ClubCreateCommand::new("u-1", "")),
        Err(DomainError::Validation(Subject::ClubName, ValidationErrorKind::EmptyValue))
    );
    assert_eq!(
        create.handle(ClubCreateCommand::new("u-1", "Chess Club")),
        Err(DomainError::Duplicate(Taken::ClubName))
    );
    assert_eq!(create.club_repository().len(), 1);
    assert_eq!(create.handle(ClubCreateCommand::new("u-1", "Go Club")), Ok(()));
    assert_eq!(create.club_repository().len(), 2);
}

#[test]
fn join_fails_in_the_order_of_its_checks() {
    let mut users = InMemoryUserRepository::new();
    users.save(&user("new", "newcomer", false)).unwrap();
    let mut clubs = InMemoryClubRepository::new();
    clubs.save(&club("orphan", "Orphan Club", "gone", &[])).unwrap();
    let mut join = ClubJoinService::new(clubs, users);
    assert_eq!(
        join.handle(ClubJoinCommand::new("", "")),
        Err(DomainError::Validation(Subject::UserId, ValidationErrorKind::EmptyValue))
    );
    assert_eq!(
        join.handle(ClubJoinCommand::new("nobody", "")),
        Err(DomainError::NotFound(Missing::User))
    );
    assert_eq!(
        join.handle(ClubJoinCommand::new("new", "")),
        Err(DomainError::Validation(Subject::ClubId, ValidationErrorKind::EmptyValue))
    );
    assert_eq!(
        join.handle(ClubJoinCommand::new("new", "c-9")),
        Err(DomainError::NotFound(Missing::Club))
    );
    assert_eq!(
        join.handle(ClubJoinCommand::new("new", "orphan")),
        Err(DomainError::NotFound(Missing::Owner))
    );
    assert!(members_of(join.club_repository(), "orphan").is_empty());
}

#[test]
fn join_is_refused_at_three_members_without_a_premium_member() {
    let users = users_with_members(3, 0);
    let clubs = clubs_with(&club("c-1", "Chess Club", "owner", &names(3)));
    let mut join = ClubJoinService::new(clubs, users);
    assert_eq!(
        join.handle(ClubJoinCommand::new("new", "c-1")),
        Err(DomainError::Capacity(Limit::Admission))
    );
    assert_eq!(members_of(join.club_repository(), "c-1"), names(3));
}

#[test]
fn join_is_allowed_at_three_members_with_a_premium_member() {
    let users = users_with_members(3, 1);
    let clubs = clubs_with(&club("c-1", "Chess Club", "owner", &names(3)));
    let mut join = ClubJoinService::new(clubs, users);
    assert_eq!(join.handle(ClubJoinCommand::new("new", "c-1")), Ok(()));
    let mut expected = names(3);
    expected.push("new".to_string());
    assert_eq!(members_of(join.club_repository(), "c-1"), expected);
}

#[test]
fn join_is_allowed_below_three_members() {
    let users = users_with_members(2, 0);
    let clubs = clubs_with(&club("c-1", "Chess Club", "owner", &names(2)));
    let mut join = ClubJoinService::new(clubs, users);
    assert_eq!(join.handle(ClubJoinCommand::new("new", "c-1")), Ok(()));
    assert_eq!(members_of(join.club_repository(), "c-1").len(), 3);
    assert_eq!(
        join.handle(ClubJoinCommand::new("new", "c-1")),
        Err(DomainError::Capacity(Limit::Admission))
    );
}

#[test]
fn join_fills_a_premium_club_up_to_the_ceiling_and_no_further() {
    let users = users_with_members(29, 1);
    let clubs = clubs_with(&club("c-1", "Chess Club", "owner", &names(28)));
    let mut join = ClubJoinService::new(clubs, users);
    assert_eq!(join.handle(ClubJoinCommand::new("new", "c-1")), Ok(()));
    let found = join
        .club_repository()
        .find_by_id(&ClubId::new("c-1").unwrap())
        .unwrap()
        .unwrap();
    assert_eq!(found.count_members(), 30);
    assert_eq!(
        join.handle(ClubJoinCommand::new("m-28", "c-1")),
        Err(DomainError::Capacity(Limit::Ceiling))
    );
    assert_eq!(members_of(join.club_repository(), "c-1").len(), 29);
}

#[test]
fn join_counts_only_members_that_the_store_knows() {
    // Three identities in the list, but only two users behind them.
    let users = users_with_members(2, 0);
    let clubs = clubs_with(&club("c-1", "Chess Club", "owner", &names(3)));
    let mut join = ClubJoinService::new(clubs, users);
    assert_eq!(join.handle(ClubJoinCommand::new("new", "c-1")), Ok(()));
    assert_eq!(members_of(join.club_repository(), "c-1").len(), 4);
}

#[test]
fn enrol_asks_the_rule_before_the_ceiling() {
    let members: Vec<User> = (0..3).map(|i| user(&format!("m-{}", i), "member", false)).collect();
    let refused = enrol(
        club("c-1", "Chess Club", "owner", &names(29)),
        user("new", "newcomer", false),
        user("owner", "the owner", true),
        members,
    );
    assert_eq!(refused.err(), Some(DomainError::Capacity(Limit::Admission)));

    let refused = enrol(
        club("c-1", "Chess Club", "owner", &names(29)),
        user("new", "newcomer", false),
        user("owner", "the owner", false),
        vec![user("m-0", "member", true)],
    );
    assert_eq!(refused.err(), Some(DomainError::Capacity(Limit::Ceiling)));

    let taken = enrol(
        club("c-1", "Chess Club", "owner", &names(1)),
        user("new", "newcomer", false),
        user("owner", "the owner", false),
        vec![user("m-0", "member", false)],
    )
    .unwrap();
    assert_eq!(taken.count_members(), 3);
    assert_eq!(taken.get_members()[1].to_str(), "new");
}

#[test]
fn found_club_and_register_user_refuse_taken_names() {
    let mut clubs = clubs_with(&club("c-1", "Chess Club", "u-1", &[]));
    assert_eq!(
        found_club(&mut clubs, &club("c-2", "Chess Club", "u-2", &[])),
        Err(DomainError::Duplicate(Taken::ClubName))
    );
    assert_eq!(found_club(&mut clubs, &club("c-2", "Go Club", "u-2", &[])), Ok(()));
    assert_eq!(clubs.len(), 2);

    let mut users = InMemoryUserRepository::new();
    assert_eq!(register_user(&mut users, &user("u-1", "alice", false)), Ok(()));
    assert_eq!(
        register_user(&mut users, &user("u-2", "alice", false)),
        Err(DomainError::Duplicate(Taken::UserName))
    );
    assert_eq!(users.len(), 1);
}

fn told(list: &[ClubRecommendation]) -> Vec<(String, String, String)> {
    list.iter()
        .map(|r| (r.club_id.clone(), r.club_name.clone(), r.owner.clone()))
        .collect()
}

#[test]
fn fifteen_worthy_clubs_give_ten_recommendations() {
    let mut clubs = InMemoryClubRepository::new();
    for i in 0..15 {
        let id = format!("c-{}", i);
        let name = format!("Club {}", i);
        clubs.save(&club(&id, &name, "owner", &names(2 + i % 3))).unwrap();
    }
    let service = ClubRecommendationService::new(clubs);
    let picked = service.handle().unwrap();
    assert_eq!(picked.len(), 10);
    let expected: Vec<(String, String, String)> = (0..10)
        .map(|i| (format!("c-{}", i), format!("Club {}", i), "owner".to_string()))
        .collect();
    assert_eq!(told(&picked), expected);
}

#[test]
fn small_clubs_are_never_recommended() {
    let mut clubs = InMemoryClubRepository::new();
    for i in 0..20 {
        let id = format!("c-{}", i);
        let name = format!("Club {}", i);
        clubs.save(&club(&id, &name, "owner", &names(i % 2))).unwrap();
    }
    let service = ClubRecommendationService::new(clubs);
    assert!(service.handle().unwrap().is_empty());
}

#[test]
fn recommendations_skip_small_clubs_and_keep_the_order() {
    let list: Vec<Club> = (0..25)
        .map(|i| {
            let size = if i % 2 == 0 { 1 } else { 2 };
            club(&format!("c-{}", i), &format!("Club {}", i), &format!("o-{}", i), &names(size))
        })
        .collect();
    let picked = recommend(&list);
    let expected: Vec<(String, String, String)> = (0..10)
        .map(|k| 2 * k + 1)
        .map(|i| (format!("c-{}", i), format!("Club {}", i), format!("o-{}", i)))
        .collect();
    assert_eq!(told(&picked), expected);
    assert!(recommend(&Vec::new()).is_empty());
    let few = recommend(&list[..8].to_vec());
    assert_eq!(few.len(), 4);
}
