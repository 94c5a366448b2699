use vstd::prelude::*;
use super::super::entity::Club;
use super::super::repository::{club_name_taken, ClubRepositoryTrait};

verus! {

/// Answers whether a club is already known to a store.
pub struct ClubService<'a, R: ClubRepositoryTrait> {
    repository: &'a R,
}

impl<'a, R: ClubRepositoryTrait> ClubService<'a, R> {
    /// The store that this service asks.
    pub closed spec fn repository(&self) -> &'a R {
        self.repository
    }

    pub fn new(repository: &'a R) -> (service: Self)
        ensures
            service.repository() == repository,
    {
        ClubService { repository }
    }

    /// Whether a stored club bears the name of `club`. A store that fails to
    /// answer counts as one that holds no such club.
    pub fn exists_by_name(&self, club: &Club) -> (known: bool)
        ensures
            known ==> club_name_taken(self.repository()@, club@.name),
            self.repository().never_fails() ==> known == club_name_taken(
                self.repository()@,
                club@.name,
            ),
    {
        let name = club.get_name();
        match self.repository.find_by_name(name) {
            Ok(maybe_club) => maybe_club.is_some(),
            Err(_) => false,
        }
    }
}

} // verus!
