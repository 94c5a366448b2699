use club_membership::domain::model::club::entity::{Club, ClubId, ClubMembers, ClubName};
use club_membership::domain::model::club::specifications::{
    ClubMembersFullSpec, ClubRecommendationSpec,
};
use club_membership::domain::model::user::entity::{User, UserId, UserIsPremium, UserName};
use club_membership::error::{DomainError, Limit};

fn user(id: &str, name: &str, premium: bool) -> User {
    User::new(
        UserId::new(id).unwrap(),
        UserName::new(name).unwrap(),
        UserIsPremium::new(premium),
    )
    .unwrap()
}

fn ids(count: usize) -> Vec<UserId> {
    (0..count).map(|i| UserId::new(&format!("member-{}", i)).unwrap()).collect()
}

fn club(members: usize) -> Club {
    Club::new(
        ClubId::new("club-1").unwrap(),
        ClubName::new("Chess Club").unwrap(),
        ids(members),
        UserId::new("owner").unwrap(),
    )
    .unwrap()
}

fn club_members(premium: usize, ordinary: usize, owner_premium: bool) -> ClubMembers {
    let mut members = Vec::new();
    for i in 0..premium {
        members.push(user(&format!("p-{}", i), "premium member", true));
    }
    for i in 0..ordinary {
        members.push(user(&format!("o-{}", i), "ordinary member", false));
    }
    ClubMembers::new(
        ClubId::new("club-1").unwrap(),
        user("owner", "the owner", owner_premium),
        members,
    )
}

#[test]
fn user_holds_its_parts() {
    let alice = user("u-1", "alice", false);
    assert_eq!(alice.get_id().to_str(), "u-1");
    assert_eq!(alice.get_name().to_str(), "alice");
    assert!(!alice.get_is_premium().to_inner());
    assert_eq!(alice.validate(), Ok(()));
}

#[test]
fn user_change_name_keeps_the_rest() {
    let mut alice = user("u-1", "alice", true);
    assert_eq!(alice.change_name(UserName::new("alicia").unwrap()), Ok(()));
    assert_eq!(alice.get_name().to_str(), "alicia");
    assert_eq!(alice.get_id().to_str(), "u-1");
    assert!(alice.get_is_premium().to_inner());
}

#[test]
fn upgrade_and_downgrade_are_idempotent_and_the_last_one_wins() {
    for start in [false, true] {
        let mut u = user("u-1", "alice", start);
        assert_eq!(u.upgrade(), Ok(()));
        assert!(u.get_is_premium().to_inner());
        assert_eq!(u.upgrade(), Ok(()));
        assert!(u.get_is_premium().to_inner());
        assert_eq!(u.downgrade(), Ok(()));
        assert!(!u.get_is_premium().to_inner());
        assert_eq!(u.downgrade(), Ok(()));
        assert!(!u.get_is_premium().to_inner());
        assert_eq!(u.upgrade(), Ok(()));
        assert!(u.get_is_premium().to_inner());
        assert_eq!(u.get_name().to_str(), "alice");
        assert_eq!(u.get_id().to_str(), "u-1");
    }
}

#[test]
fn new_club_counts_its_owner() {
    let c = club(0);
    assert_eq!(c.count_members(), 1);
    assert!(!c.is_full());
    assert_eq!(c.get_members().len(), 0);
    assert_eq!(c.get_owner_id().to_str(), "owner");
    assert_eq!(c.get_id().to_str(), "club-1");
    assert_eq!(c.get_name().to_str(), "Chess Club");
    assert_eq!(c.validate(), Ok(()));
}

#[test]
fn joining_a_club_of_twenty_eight_members_fills_it() {
    let mut c = club(28);
    assert_eq!(c.count_members(), 29);
    assert!(!c.is_full());
    assert_eq!(c.join(user("new", "newcomer", false)), Ok(()));
    assert_eq!(c.count_members(), 30);
    assert!(c.is_full());
    assert_eq!(c.get_members().len(), 29);
    assert_eq!(c.get_members()[28].to_str(), "new");
}

#[test]
fn joining_a_club_of_twenty_nine_members_is_refused() {
    let mut c = club(29);
    assert_eq!(c.count_members(), 30);
    assert!(c.is_full());
    assert_eq!(
        c.join(user("new", "newcomer", true)),
        Err(DomainError::Capacity(Limit::Ceiling))
    );
    assert_eq!(c.count_members(), 30);
    assert_eq!(c.get_members().len(), 29);
    assert_eq!(c.get_members()[28].to_str(), "member-28");
}

#[test]
fn a_club_cannot_be_made_above_the_ceiling() {
    let made = Club::new(
        ClubId::new("club-1").unwrap(),
        ClubName::new("Chess Club").unwrap(),
        ids(30),
        UserId::new("owner").unwrap(),
    );
    assert_eq!(made.err(), Some(DomainError::Capacity(Limit::Ceiling)));
    assert_eq!(club(29).count_members(), 30);
}

#[test]
fn a_member_may_join_twice() {
    let mut c = club(0);
    assert_eq!(c.join(user("bob", "bobby", false)), Ok(()));
    assert_eq!(c.join(user("bob", "bobby", false)), Ok(()));
    assert_eq!(c.count_members(), 3);
    assert_eq!(c.get_members()[0].to_str(), "bob");
    assert_eq!(c.get_members()[1].to_str(), "bob");
}

#[test]
fn club_change_name_keeps_the_rest() {
    let mut c = club(2);
    assert_eq!(c.change_name(ClubName::new("Go Club").unwrap()), Ok(()));
    assert_eq!(c.get_name().to_str(), "Go Club");
    assert_eq!(c.count_members(), 3);
    assert_eq!(c.get_owner_id().to_str(), "owner");
    let copy = c.clone();
    assert_eq!(copy.get_name().to_str(), "Go Club");
    assert_eq!(copy.get_members().len(), 2);
    assert_eq!(copy.get_members()[1].to_str(), "member-1");
}

#[test]
fn club_members_counts_premium_members() {
    let m = club_members(2, 3, true);
    assert_eq!(m.count_members(), 5);
    assert_eq!(m.count_premium_members(false), 2);
    assert_eq!(m.count_premium_members(true), 3);
    let m = club_members(0, 4, false);
    assert_eq!(m.count_premium_members(false), 0);
    assert_eq!(m.count_premium_members(true), 0);
    let m = club_members(0, 0, true);
    assert_eq!(m.count_members(), 0);
    assert_eq!(m.count_premium_members(false), 0);
    assert_eq!(m.count_premium_members(true), 1);
}

#[test]
fn full_spec_without_premium_member_closes_at_three() {
    let spec = ClubMembersFullSpec::new();
    assert!(!spec.is_satisfied_by(club_members(0, 0, false)));
    assert!(!spec.is_satisfied_by(club_members(0, 2, false)));
    assert!(spec.is_satisfied_by(club_members(0, 3, false)));
    assert!(spec.is_satisfied_by(club_members(0, 4, false)));
}

#[test]
fn full_spec_with_premium_member_closes_at_fifty() {
    let spec = ClubMembersFullSpec::new();
    assert!(!spec.is_satisfied_by(club_members(1, 2, false)));
    assert!(!spec.is_satisfied_by(club_members(1, 48, false)));
    assert!(spec.is_satisfied_by(club_members(1, 49, false)));
    assert!(spec.is_satisfied_by(club_members(3, 50, false)));
}

#[test]
fn full_spec_does_not_count_the_owner_as_premium() {
    let spec = ClubMembersFullSpec::new();
    assert!(spec.is_satisfied_by(club_members(0, 3, true)));
    assert!(!spec.is_satisfied_by(club_members(0, 2, true)));
}

#[test]
fn recommendation_spec_asks_for_three_people() {
    let spec = ClubRecommendationSpec::new();
    assert!(!spec.is_satisfied_by(&club(0)));
    assert!(!spec.is_satisfied_by(&club(1)));
    assert!(spec.is_satisfied_by(&club(2)));
    assert!(spec.is_satisfied_by(&club(29)));
}
