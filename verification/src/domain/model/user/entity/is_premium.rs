use vstd::prelude::*;

verus! {

/// Whether a user holds a premium membership.
#[derive(Debug, Clone, Copy, PartialEq, Eq, Structural)]
pub struct UserIsPremium {
    value: bool,
}

impl View for UserIsPremium {
    type V = bool;

    closed spec fn view(&self) -> bool {
        self.value
    }
}

impl UserIsPremium {
    pub fn new(value: bool) -> (flag: Self)
        ensures
            flag@ == value,
    {
        Self { value }
    }

    pub fn to_inner(&self) -> (value: bool)
        ensures
            value == self@,
    {
        self.value
    }
}

} // verus!
