use vstd::prelude::*;

verus! {

/// Why a raw value was refused by a value object.
#[derive(Clone, Copy, Debug, PartialEq, Eq, Structural)]
pub enum ValidationErrorKind {
    /// The value holds no character at all.
    EmptyValue,
    /// The value holds at least one character, but fewer than required.
    TooShort,
}

/// The value object that refused its input.
#[derive(Clone, Copy, Debug, PartialEq, Eq, Structural)]
pub enum Subject {
    UserId,
    UserName,
    ClubId,
    ClubName,
}

/// The record that a use case looked for and did not find.
#[derive(Clone, Copy, Debug, PartialEq, Eq, Structural)]
pub enum Missing {
    /// The user that a command names.
    User,
    /// The club that a command names.
    Club,
    /// The user that a stored club names as its owner.
    Owner,
}

/// The aggregate whose name is already taken.
#[derive(Clone, Copy, Debug, PartialEq, Eq, Structural)]
pub enum Taken {
    UserName,
    ClubName,
}

/// The limit that keeps a club from growing.
#[derive(Clone, Copy, Debug, PartialEq, Eq, Structural)]
pub enum Limit {
    /// The admission rule, which depends on how many members are premium.
    Admission,
    /// The hard ceiling on the size of any club.
    Ceiling,
}

/// A request that a store could not carry out.
#[derive(Clone, Copy, Debug, PartialEq, Eq, Structural)]
pub struct StoreError {}

/// Every way in which a domain operation or a use case can fail.
#[derive(Clone, Copy, Debug, PartialEq, Eq, Structural)]
pub enum DomainError {
    /// A raw value does not make a value object.
    Validation(Subject, ValidationErrorKind),
    /// A record that the use case needs is absent.
    NotFound(Missing),
    /// The name is already in use.
    Duplicate(Taken),
    /// The club cannot take another member.
    Capacity(Limit),
    /// The store could not carry out a request.
    Store,
}

impl DomainError {
    /// The text that describes this error to a person.
    pub open spec fn message_spec(self) -> Seq<char> {
        match self {
            DomainError::Validation(Subject::UserId, _) => "The ID cannot be empty"@,
            DomainError::Validation(Subject::ClubId, _) => "The club ID cannot be empty"@,
            DomainError::Validation(Subject::UserName, ValidationErrorKind::EmptyValue) =>
                "User name cannot be empty."@,
            DomainError::Validation(Subject::UserName, ValidationErrorKind::TooShort) =>
                "The length of a user name must be greater than 3"@,
            DomainError::Validation(Subject::ClubName, ValidationErrorKind::EmptyValue) =>
                "Club name cannot be empty."@,
            DomainError::Validation(Subject::ClubName, ValidationErrorKind::TooShort) =>
                "The length of a club name must be greater than 3"@,
            DomainError::NotFound(Missing::User) => "Could not find the user"@,
            DomainError::NotFound(Missing::Club) => "Could not find the club"@,
            DomainError::NotFound(Missing::Owner) => "Could not find the owner of this club."@,
            DomainError::Duplicate(Taken::UserName) => "User already exists"@,
            DomainError::Duplicate(Taken::ClubName) => "Club already exists"@,
            DomainError::Capacity(Limit::Admission) => "Club member is already full."@,
            DomainError::Capacity(Limit::Ceiling) =>
                "Club members have already reached the upper limit."@,
            DomainError::Store => "The store could not carry out the request."@,
        }
    }

    /// Renders this error as text.
    pub fn message(&self) -> (text: String)
        ensures
            text@ == self.message_spec(),
    {
        let text: &str = match self {
            DomainError::Validation(Subject::UserId, _) => "The ID cannot be empty",
            DomainError::Validation(Subject::ClubId, _) => "The club ID cannot be empty",
            DomainError::Validation(Subject::UserName, ValidationErrorKind::EmptyValue) =>
                "User name cannot be empty.",
            DomainError::Validation(Subject::UserName, ValidationErrorKind::TooShort) =>
                "The length of a user name must be greater than 3",
            DomainError::Validation(Subject::ClubName, ValidationErrorKind::EmptyValue) =>
                "Club name cannot be empty.",
            DomainError::Validation(Subject::ClubName, ValidationErrorKind::TooShort) =>
                "The length of a club name must be greater than 3",
            DomainError::NotFound(Missing::User) => "Could not find the user",
            DomainError::NotFound(Missing::Club) => "Could not find the club",
            DomainError::NotFound(Missing::Owner) => "Could not find the owner of this club.",
            DomainError::Duplicate(Taken::UserName) => "User already exists",
            DomainError::Duplicate(Taken::ClubName) => "Club already exists",
            DomainError::Capacity(Limit::Admission) => "Club member is already full.",
            DomainError::Capacity(Limit::Ceiling) =>
                "Club members have already reached the upper limit.",
            DomainError::Store => "The store could not carry out the request.",
        };
        text.to_owned()
    }
}

} // verus!
