use vstd::prelude::*;
use crate::domain::model::user::entity::{User, UserId, UserIsPremium, UserName, UserView};
use crate::error::{DomainError, Subject};
use crate::validation::check_length_spec;

verus! {

/// The user that a stored row stands for, or the reason why the row stands
/// for none. The identity is looked at first, then the name.
pub open spec fn user_from_primitives_spec(id: Seq<char>, name: Seq<char>, is_premium: bool)
    -> Result<UserView, DomainError> {
    match check_length_spec(id, UserId::MIN_LENGTH as nat) {
        Some(kind) => Err(DomainError::Validation(Subject::UserId, kind)),
        None => match check_length_spec(name, UserName::MIN_LENGTH as nat) {
            Some(kind) => Err(DomainError::Validation(Subject::UserName, kind)),
            None => Ok(UserView { id, name, is_premium }),
        },
    }
}

/// Makes a user of the primitives that a store holds of it.
pub fn user_from_primitives(id: &str, name: &str, is_premium: bool) -> (read: Result<
    User,
    DomainError,
>)
    ensures
        match user_from_primitives_spec(id@, name@, is_premium) {
            Ok(view) => read matches Ok(user) && user@ == view,
            Err(e) => read matches Err(refusal) && refusal == e,
        },
{
    let user_id = UserId::new(id)?;
    let user_name = UserName::new(name)?;
    let is_premium = UserIsPremium::new(is_premium);
    User::new(user_id, user_name, is_premium)
}

/// The primitives that a store holds of `user`: identity, name and tier.
pub fn user_to_primitives(user: &User) -> (row: (String, String, bool))
    ensures
        row.0@ == user@.id,
        row.1@ == user@.name,
        row.2 == user@.is_premium,
        user_from_primitives_spec(row.0@, row.1@, row.2) == Ok::<UserView, DomainError>(user@),
{
    let id = user.get_id().to_str();
    let name = user.get_name().to_str();
    (id.to_owned(), name.to_owned(), user.get_is_premium().to_inner())
}

} // verus!
