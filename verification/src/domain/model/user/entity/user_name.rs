use vstd::prelude::*;
use vstd::std_specs::cmp::PartialEqSpecImpl;
use crate::error::{DomainError, Subject};
use crate::validation::{check_length, check_length_spec};

verus! {

/// The name of a user: at least three characters.
#[derive(Debug)]
pub struct UserName {
    value: String,
}

impl View for UserName {
    type V = Seq<char>;

    closed spec fn view(&self) -> Seq<char> {
        self.value@
    }
}

impl DeepView for UserName {
    type V = Seq<char>;

    open spec fn deep_view(&self) -> Seq<char> {
        self@
    }
}

impl UserName {
    /// The fewest characters that a name may hold.
    pub const MIN_LENGTH: u64 = 3;

    /// Every name holds at least three characters.
    #[verifier::type_invariant]
    pub open spec fn is_valid(&self) -> bool {
        self@.len() >= Self::MIN_LENGTH
    }

    /// Makes a name of `value`, which must hold at least three characters.
    pub fn new(value: &str) -> (made: Result<Self, DomainError>)
        ensures
            match check_length_spec(value@, Self::MIN_LENGTH as nat) {
                None => made matches Ok(name) && name@ == value@,
                Some(kind) => made matches Err(e) && e == DomainError::Validation(
                    Subject::UserName,
                    kind,
                ),
            },
    {
        match check_length(value, Self::MIN_LENGTH) {
            Some(kind) => Err(DomainError::Validation(Subject::UserName, kind)),
            None => Ok(Self { value: value.to_owned() }),
        }
    }

    /// The name as it was given.
    pub fn to_str(&self) -> (text: &str)
        ensures
            text@ == self@,
            text@.len() >= Self::MIN_LENGTH,
    {
        proof {
            use_type_invariant(self);
        }
        self.value.as_str()
    }

    /// The name as an owned string.
    pub fn to_string(&self) -> (text: String)
        ensures
            text@ == self@,
    {
        self.value.clone()
    }
}

impl Clone for UserName {
    fn clone(&self) -> (copy: Self)
        ensures
            copy@ == self@,
    {
        proof {
            use_type_invariant(self);
        }
        Self { value: self.value.clone() }
    }
}

impl PartialEq for UserName {
    fn eq(&self, other: &Self) -> (same: bool) {
        self.value == other.value
    }
}

impl Eq for UserName {}

impl PartialEqSpecImpl for UserName {
    open spec fn obeys_eq_spec() -> bool {
        true
    }

    open spec fn eq_spec(&self, other: &Self) -> bool {
        self@ == other@
    }
}

} // verus!
