use vstd::prelude::*;
use crate::error::{DomainError, Subject};
use crate::validation::{check_length, check_length_spec};
use super::{UserId, UserIsPremium, UserName};

verus! {

/// What a user is, as plain values.
pub struct UserView {
    pub id: Seq<char>,
    pub name: Seq<char>,
    pub is_premium: bool,
}

impl UserView {
    /// This user under another name.
    pub open spec fn renamed(self, name: Seq<char>) -> UserView {
        UserView { name, ..self }
    }

    /// This user as a premium member.
    pub open spec fn upgraded(self) -> UserView {
        UserView { is_premium: true, ..self }
    }

    /// This user as an ordinary member.
    pub open spec fn downgraded(self) -> UserView {
        UserView { is_premium: false, ..self }
    }
}

/// Whichever of upgrade and downgrade comes last decides the tier: what the
/// user was before, and what was applied before, leaves no trace.
pub proof fn law_last_tier_change_wins(user: UserView)
    ensures
        user.upgraded().is_premium,
        !user.downgraded().is_premium,
        user.upgraded().downgraded() == user.downgraded(),
        user.downgraded().upgraded() == user.upgraded(),
        user.upgraded().upgraded() == user.upgraded(),
        user.downgraded().downgraded() == user.downgraded(),
{
}

/// The user aggregate: an identity, a name and a membership tier.
#[derive(Debug)]
pub struct User {
    id: UserId,
    name: UserName,
    is_premium: UserIsPremium,
}

impl View for User {
    type V = UserView;

    closed spec fn view(&self) -> UserView {
        UserView { id: self.id@, name: self.name@, is_premium: self.is_premium@ }
    }
}

impl DeepView for User {
    type V = UserView;

    open spec fn deep_view(&self) -> UserView {
        self@
    }
}

impl User {
    /// Assembles a user from its parts. The parts are valid by construction,
    /// so the assembled user always passes its validation.
    pub fn new(id: UserId, name: UserName, is_premium: UserIsPremium) -> (made: Result<
        Self,
        DomainError,
    >)
        ensures
            made matches Ok(user) && user@ == (UserView {
                id: id@,
                name: name@,
                is_premium: is_premium@,
            }),
    {
        let data = Self { id, name, is_premium };
        match data.validate() {
            Ok(()) => Ok(data),
            Err(e) => Err(e),
        }
    }

    /// Checks every part of the aggregate again. It is run after each
    /// construction and each change, and never finds a fault.
    pub fn validate(&self) -> (verdict: Result<(), DomainError>)
        ensures
            verdict == self@.validation(),
            verdict is Ok,
    {
        if let Some(kind) = check_length(self.id.to_str(), UserId::MIN_LENGTH) {
            return Err(DomainError::Validation(Subject::UserId, kind));
        }
        if let Some(kind) = check_length(self.name.to_str(), UserName::MIN_LENGTH) {
            return Err(DomainError::Validation(Subject::UserName, kind));
        }
        Ok(())
    }

    pub fn get_name(&self) -> (name: &UserName)
        ensures
            name@ == self@.name,
    {
        &self.name
    }

    pub fn get_id(&self) -> (id: &UserId)
        ensures
            id@ == self@.id,
    {
        &self.id
    }

    pub fn get_is_premium(&self) -> (flag: &UserIsPremium)
        ensures
            flag@ == self@.is_premium,
    {
        &self.is_premium
    }

    /// Gives the user another name and leaves the rest as it was.
    pub fn change_name(&mut self, name: UserName) -> (done: Result<(), DomainError>)
        ensures
            done is Ok,
            final(self)@ == old(self)@.renamed(name@),
    {
        self.name = name;
        self.validate()
    }

    /// Makes the user premium, whatever it was before.
    pub fn upgrade(&mut self) -> (done: Result<(), DomainError>)
        ensures
            done is Ok,
            final(self)@ == old(self)@.upgraded(),
    {
        self.is_premium = UserIsPremium::new(true);
        Ok(())
    }

    /// Makes the user ordinary, whatever it was before.
    pub fn downgrade(&mut self) -> (done: Result<(), DomainError>)
        ensures
            done is Ok,
            final(self)@ == old(self)@.downgraded(),
    {
        self.is_premium = UserIsPremium::new(false);
        Ok(())
    }
}

impl Clone for User {
    fn clone(&self) -> (copy: Self)
        ensures
            copy@ == self@,
    {
        Self { id: self.id.clone(), name: self.name.clone(), is_premium: self.is_premium }
    }
}

impl UserView {
    /// What a check of every part of the user finds. The identity is looked
    /// at first, then the name; the first part that does not validate is
    /// reported.
    pub open spec fn validation(self) -> Result<(), DomainError> {
        match check_length_spec(self.id, UserId::MIN_LENGTH as nat) {
            Some(kind) => Err(DomainError::Validation(Subject::UserId, kind)),
            None => match check_length_spec(self.name, UserName::MIN_LENGTH as nat) {
                Some(kind) => Err(DomainError::Validation(Subject::UserName, kind)),
                None => Ok(()),
            },
        }
    }
}

} // verus!
