use vstd::prelude::*;
use crate::domain::model::club::entity::{Club, ClubId, ClubName, ClubView, CLUB_CEILING};
use crate::domain::model::user::entity::UserId;
use crate::error::{DomainError, Limit, Subject, ValidationErrorKind};
use crate::validation::check_length_spec;

verus! {

/// The identity of a club as a store holds it.
pub type PrimitiveId = String;

/// The name of a club as a store holds it.
pub type PrimitiveName = String;

/// The members of a club as a store holds them.
pub type PrimitiveMembers = Vec<String>;

/// The owner of a club as a store holds it.
pub type PrimitiveOwner = String;

/// The texts of a list of strings.
pub open spec fn texts(list: Seq<String>) -> Seq<Seq<char>> {
    list.map_values(|text: String| text@)
}

/// Whether one of `members` is empty, and so the identity of no user.
pub open spec fn has_empty_member(members: Seq<Seq<char>>) -> bool {
    exists|i: int| 0 <= i < members.len() && (#[trigger] members[i]).len() == 0
}

/// The club that a stored row stands for, or the reason why the row stands
/// for none. The club's identity is looked at first, then its name, its
/// owner, its members one by one, and at last their number.
pub open spec fn club_from_primitives_spec(
    id: Seq<char>,
    name: Seq<char>,
    owner: Seq<char>,
    members: Seq<Seq<char>>,
) -> Result<ClubView, DomainError> {
    match check_length_spec(id, ClubId::MIN_LENGTH as nat) {
        Some(kind) => Err(DomainError::Validation(Subject::ClubId, kind)),
        None => match check_length_spec(name, ClubName::MIN_LENGTH as nat) {
            Some(kind) => Err(DomainError::Validation(Subject::ClubName, kind)),
            None => match check_length_spec(owner, UserId::MIN_LENGTH as nat) {
                Some(kind) => Err(DomainError::Validation(Subject::UserId, kind)),
                None => if has_empty_member(members) {
                    Err(DomainError::Validation(Subject::UserId, ValidationErrorKind::EmptyValue))
                } else if members.len() + 1 > CLUB_CEILING {
                    Err(DomainError::Capacity(Limit::Ceiling))
                } else {
                    Ok(ClubView { id, name, owner, members })
                },
            },
        },
    }
}

/// Makes a club of the primitives that a store holds of it.
pub fn club_from_primitives(
    id: &PrimitiveId,
    name: &PrimitiveName,
    owner_id: &PrimitiveOwner,
    members: &PrimitiveMembers,
) -> (read: Result<Club, DomainError>)
    ensures
        match club_from_primitives_spec(id@, name@, owner_id@, texts(members@)) {
            Ok(view) => read matches Ok(club) && club@ == view,
            Err(e) => read matches Err(refusal) && refusal == e,
        },
{
    let club_id = ClubId::new(id.as_str())?;
    let club_name = ClubName::new(name.as_str())?;
    let user_id = UserId::new(owner_id.as_str())?;
    let mut member: Vec<UserId> = Vec::new();
    let mut i: usize = 0;
    while i < members.len()
        invariant
            i <= members.len(),
            member.len() == i,
            check_length_spec(id@, ClubId::MIN_LENGTH as nat) is None,
            check_length_spec(name@, ClubName::MIN_LENGTH as nat) is None,
            check_length_spec(owner_id@, UserId::MIN_LENGTH as nat) is None,
            forall|k: int| 0 <= k < i ==> (#[trigger] member@[k])@ == members@[k]@,
            forall|k: int| 0 <= k < i ==> (#[trigger] texts(members@)[k]).len() > 0,
        decreases members.len() - i,
    {
        match UserId::new(members[i].as_str()) {
            Ok(id) => {
                assert(texts(members@)[i as int] == members@[i as int]@);
                member.push(id);
            },
            Err(e) => {
                assert(texts(members@)[i as int] == members@[i as int]@);
                assert(texts(members@)[i as int].len() == 0);
                assert(has_empty_member(texts(members@)));
                return Err(e);
            },
        }
        i += 1;
    }
    assert(member.deep_view() =~= texts(members@));
    assert(!has_empty_member(texts(members@)));
    Club::new(club_id, club_name, member, user_id)
}

/// The primitives that a store holds of `club`: identity, name, owner and
/// members.
pub fn club_to_primitives(club: &Club) -> (row: (
    PrimitiveId,
    PrimitiveName,
    PrimitiveOwner,
    PrimitiveMembers,
))
    ensures
        row.0@ == club@.id,
        row.1@ == club@.name,
        row.2@ == club@.owner,
        texts(row.3@) == club@.members,
{
    let stored = club.get_members();
    let mut members: Vec<String> = Vec::new();
    let mut i: usize = 0;
    while i < stored.len()
        invariant
            i <= stored.len(),
            members.len() == i,
            forall|k: int| 0 <= k < i ==> (#[trigger] members@[k])@ == stored@[k]@,
        decreases stored.len() - i,
    {
        members.push(stored[i].to_string());
        i += 1;
    }
    assert(texts(members@) =~= stored.deep_view());
    (club.get_id().to_string(), club.get_name().to_string(), club.get_owner_id().to_string(), members)
}

} // verus!
