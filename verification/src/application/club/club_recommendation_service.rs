use vstd::prelude::*;
use crate::domain::model::club::entity::{Club, ClubView};
use crate::domain::model::club::repository::{is_listing, ClubRepositoryTrait};
use crate::domain::model::club::specifications::{is_recommendable, ClubRecommendationSpec};
use crate::error::DomainError;

verus! {

/// The most clubs that are recommended at a time.
pub const TOP: usize = 10;

/// What a reader is told of a recommended club, as plain values.
pub struct ClubRecommendationView {
    pub club_id: Seq<char>,
    pub club_name: Seq<char>,
    pub owner: Seq<char>,
}

/// What a reader is told of a recommended club.
#[derive(Debug)]
pub struct ClubRecommendation {
    pub club_id: String,
    pub club_name: String,
    pub owner: String,
}

impl View for ClubRecommendation {
    type V = ClubRecommendationView;

    open spec fn view(&self) -> ClubRecommendationView {
        ClubRecommendationView {
            club_id: self.club_id@,
            club_name: self.club_name@,
            owner: self.owner@,
        }
    }
}

impl DeepView for ClubRecommendation {
    type V = ClubRecommendationView;

    open spec fn deep_view(&self) -> ClubRecommendationView {
        self@
    }
}

/// What is told of `club` when it is recommended.
pub open spec fn projection(club: ClubView) -> ClubRecommendationView {
    ClubRecommendationView { club_id: club.id, club_name: club.name, owner: club.owner }
}

impl ClubRecommendation {
    pub fn new(club: &Club) -> (told: Self)
        ensures
            told@ == projection(club@),
    {
        Self {
            club_id: club.get_id().to_string(),
            club_name: club.get_name().to_string(),
            owner: club.get_owner_id().to_string(),
        }
    }
}

/// The first `most` of `items`, or all of them if there are fewer.
pub open spec fn at_most<T>(items: Seq<T>, most: nat) -> Seq<T> {
    if items.len() <= most {
        items
    } else {
        items.take(most as int)
    }
}

/// The clubs of `clubs` that are worth recommending, in their order.
pub open spec fn worthy(clubs: Seq<ClubView>) -> Seq<ClubView> {
    clubs.filter(|club: ClubView| is_recommendable(club))
}

/// The recommendations drawn from `clubs`: of those worth recommending, the
/// first ten in the order of `clubs`, each as its projection.
pub open spec fn recommend_spec(clubs: Seq<ClubView>) -> Seq<ClubRecommendationView> {
    at_most(worthy(clubs), TOP as nat).map_values(|club: ClubView| projection(club))
}

proof fn lemma_worthy_step(clubs: Seq<ClubView>, i: int)
    requires
        0 <= i < clubs.len(),
    ensures
        worthy(clubs.take(i + 1)) == if is_recommendable(clubs[i]) {
            worthy(clubs.take(i)).push(clubs[i])
        } else {
            worthy(clubs.take(i))
        },
{
    reveal(Seq::filter);
    assert(clubs.take(i + 1).drop_last() =~= clubs.take(i));
    assert(clubs.take(i + 1).last() == clubs[i]);
}

proof fn lemma_worthy_all(clubs: Seq<ClubView>)
    requires
        forall|i: int| 0 <= i < clubs.len() ==> is_recommendable(#[trigger] clubs[i]),
    ensures
        worthy(clubs) == clubs,
    decreases clubs.len(),
{
    reveal(Seq::filter);
    if clubs.len() > 0 {
        lemma_worthy_all(clubs.drop_last());
        assert(clubs.drop_last().push(clubs.last()) =~= clubs);
    }
}

/// No more than ten clubs are recommended; each recommendation speaks of a
/// club of the list that holds at least three people, so that a club with
/// fewer never appears, however many clubs there are; and where every club of
/// the list holds at least three people, ten are recommended if there are
/// ten or more, and all of them otherwise.
pub proof fn law_recommendations(clubs: Seq<ClubView>)
    ensures
        recommend_spec(clubs).len() <= TOP,
        forall|k: int|
            0 <= k < recommend_spec(clubs).len() ==> exists|i: int|
                0 <= i < clubs.len() && is_recommendable(#[trigger] clubs[i]) && projection(
                    clubs[i],
                ) == #[trigger] recommend_spec(clubs)[k],
        (forall|i: int| 0 <= i < clubs.len() ==> is_recommendable(#[trigger] clubs[i]))
            ==> recommend_spec(clubs).len() == if clubs.len() <= TOP {
            clubs.len()
        } else {
            TOP as nat
        },
        (forall|i: int| 0 <= i < clubs.len() ==> !is_recommendable(#[trigger] clubs[i]))
            ==> recommend_spec(clubs).len() == 0,
{
    let eligible = |club: ClubView| is_recommendable(club);
    let chosen = worthy(clubs);
    assert forall|k: int| 0 <= k < recommend_spec(clubs).len() implies exists|i: int|
        0 <= i < clubs.len() && is_recommendable(#[trigger] clubs[i]) && projection(clubs[i])
            == #[trigger] recommend_spec(clubs)[k] by {
        assert(at_most(chosen, TOP as nat)[k] == chosen[k]);
        clubs.lemma_filter_pred(eligible, k);
        clubs.lemma_filter_contains_rev(eligible, chosen[k]);
        let i = choose|i: int| 0 <= i < clubs.len() && clubs[i] == chosen[k];
        assert(is_recommendable(clubs[i]));
    }
    if forall|i: int| 0 <= i < clubs.len() ==> is_recommendable(#[trigger] clubs[i]) {
        lemma_worthy_all(clubs);
    }
    if forall|i: int| 0 <= i < clubs.len() ==> !is_recommendable(#[trigger] clubs[i]) {
        if chosen.len() > 0 {
            clubs.lemma_filter_pred(eligible, 0);
            clubs.lemma_filter_contains_rev(eligible, chosen[0]);
            let i = choose|i: int| 0 <= i < clubs.len() && clubs[i] == chosen[0];
            assert(!is_recommendable(clubs[i]));
        }
    }
}

/// Picks the recommendations from a list of clubs.
pub fn recommend(clubs: &Vec<Club>) -> (picked: Vec<ClubRecommendation>)
    ensures
        picked.deep_view() == recommend_spec(clubs.deep_view()),
{
    let spec = ClubRecommendationSpec::new();
    let ghost all = clubs.deep_view();
    let ghost told = |club: ClubView| projection(club);
    let mut picked: Vec<ClubRecommendation> = Vec::new();
    let mut i: usize = 0;
    proof {
        reveal(Seq::filter);
        assert(worthy(all.take(0)) =~= Seq::<ClubView>::empty());
        assert(picked.deep_view() =~= worthy(all.take(0)).map_values(told));
    }
    while i < clubs.len() && picked.len() < TOP
        invariant
            i <= clubs.len(),
            all == clubs.deep_view(),
            told == (|club: ClubView| projection(club)),
            picked.len() <= TOP,
            picked.deep_view() == worthy(all.take(i as int)).map_values(told),
        decreases clubs.len() - i,
    {
        let ghost earlier = picked.deep_view();
        proof {
            lemma_worthy_step(all, i as int);
        }
        if spec.is_satisfied_by(&clubs[i]) {
            picked.push(ClubRecommendation::new(&clubs[i]));
            assert(picked.deep_view() =~= earlier.push(projection(all[i as int])));
            assert(picked.deep_view() =~= worthy(all.take(i + 1)).map_values(told));
        }
        i += 1;
    }
    proof {
        let seen = worthy(all.take(i as int));
        let unseen = worthy(all.skip(i as int));
        assert(all.take(i as int) + all.skip(i as int) =~= all);
        Seq::filter_distributes_over_add(
            all.take(i as int),
            all.skip(i as int),
            |club: ClubView| is_recommendable(club),
        );
        assert(worthy(all) == seen + unseen);
        if i < clubs.len() {
            assert(seen.len() == TOP);
            assert(at_most(seen + unseen, TOP as nat) =~= seen);
        } else {
            assert(all.skip(i as int) =~= Seq::<ClubView>::empty());
            reveal(Seq::filter);
            assert(unseen =~= Seq::<ClubView>::empty());
            assert(seen + unseen =~= seen);
        }
        assert(at_most(worthy(all), TOP as nat) == seen);
    }
    picked
}

/// The use case that recommends clubs.
pub struct ClubRecommendationService<C: ClubRepositoryTrait> {
    club_repository: C,
}

impl<C: ClubRepositoryTrait> ClubRecommendationService<C> {
    /// The store of clubs that this service reads.
    pub closed spec fn clubs(&self) -> C {
        self.club_repository
    }

    pub fn new(club_repository: C) -> (service: Self)
        ensures
            service.clubs() == club_repository,
    {
        Self { club_repository }
    }

    /// Gives the store back.
    pub fn into_repository(self) -> (repository: C)
        ensures
            repository == self.clubs(),
    {
        self.club_repository
    }

    /// Recommends up to ten of the stored clubs: the first ones, in the
    /// order in which the store lists them, that are worth recommending.
    pub fn handle(&self) -> (done: Result<Vec<ClubRecommendation>, DomainError>)
        ensures
            self.clubs().never_fails() ==> done is Ok,
            match done {
                Ok(picked) => {
                    &&& picked.deep_view() == recommend_spec(self.clubs().listing())
                    &&& is_listing(self.clubs()@, self.clubs().listing())
                },
                Err(e) => e == DomainError::Store && !self.clubs().never_fails(),
            },
    {
        let clubs = match self.club_repository.find_all() {
            Ok(clubs) => clubs,
            Err(_) => {
                return Err(DomainError::Store);
            },
        };
        Ok(recommend(&clubs))
    }
}

} // verus!
