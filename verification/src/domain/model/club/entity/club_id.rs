use vstd::prelude::*;
use vstd::std_specs::cmp::PartialEqSpecImpl;
use crate::error::{DomainError, Subject};
use crate::validation::{check_length, check_length_spec};

verus! {

/// The identity of a club: an opaque, non-empty string.
#[derive(Debug)]
pub struct ClubId {
    value: String,
}

impl View for ClubId {
    type V = Seq<char>;

    closed spec fn view(&self) -> Seq<char> {
        self.value@
    }
}

impl DeepView for ClubId {
    type V = Seq<char>;

    open spec fn deep_view(&self) -> Seq<char> {
        self@
    }
}

impl ClubId {
    /// The fewest characters that an identity may hold.
    pub const MIN_LENGTH: u64 = 1;

    /// Every identity holds at least one character.
    #[verifier::type_invariant]
    pub open spec fn is_valid(&self) -> bool {
        self@.len() >= Self::MIN_LENGTH
    }

    /// Makes an identity of `value`, which must not be empty.
    pub fn new(value: &str) -> (made: Result<Self, DomainError>)
        ensures
            match check_length_spec(value@, Self::MIN_LENGTH as nat) {
                None => made matches Ok(id) && id@ == value@,
                Some(kind) => made matches Err(e) && e == DomainError::Validation(
                    Subject::ClubId,
                    kind,
                ),
            },
    {
        match check_length(value, Self::MIN_LENGTH) {
            Some(kind) => Err(DomainError::Validation(Subject::ClubId, kind)),
            None => Ok(Self { value: value.to_owned() }),
        }
    }

    /// The identity as it was given.
    pub fn to_str(&self) -> (text: &str)
        ensures
            text@ == self@,
            text@.len() >= Self::MIN_LENGTH,
    {
        proof {
            use_type_invariant(self);
        }
        self.value.as_str()
    }

    /// The identity as an owned string.
    pub fn to_string(&self) -> (text: String)
        ensures
            text@ == self@,
    {
        self.value.clone()
    }
}

impl Clone for ClubId {
    fn clone(&self) -> (copy: Self)
        ensures
            copy@ == self@,
    {
        proof {
            use_type_invariant(self);
        }
        Self { value: self.value.clone() }
    }
}

impl PartialEq for ClubId {
    fn eq(&self, other: &Self) -> (same: bool) {
        self.value == other.value
    }
}

impl Eq for ClubId {}

impl PartialEqSpecImpl for ClubId {
    open spec fn obeys_eq_spec() -> bool {
        true
    }

    open spec fn eq_spec(&self, other: &Self) -> bool {
        self@ == other@
    }
}

} // verus!
