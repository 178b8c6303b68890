//! What a client may ask about attractions.

use crate::model::attraction::{AttractionRating, FullAttraction};
use vstd::prelude::*;

verus! {

/// Answers questions about attractions from a repository.
pub struct AttractionControllerImpl<AttractionRepo> {
    attraction_repository: AttractionRepo,
}

impl<AttractionRepo> AttractionControllerImpl<AttractionRepo> {
    /// The repository that the controller asks.
    pub closed spec fn repository(&self) -> AttractionRepo {
        self.attraction_repository
    }

    pub fn new(attraction_repository: AttractionRepo) -> (r: Self)
        ensures
            r.repository() == attraction_repository,
    {
        AttractionControllerImpl { attraction_repository }
    }

    /// The repository that the controller asks.
    pub fn attraction_repository(&self) -> (r: &AttractionRepo)
        ensures
            *r == self.repository(),
    {
        &self.attraction_repository
    }
}

/// What the repository found, if it answered.
pub fn found<T>(answer: Result<T, String>) -> (r: Option<T>)
    ensures
        r == (match answer {
            Ok(value) => Some(value),
            Err(_) => None,
        }),
{
    match answer {
        Ok(value) => Some(value),
        Err(_) => None,
    }
}

/// The ratings of an attraction: those that the repository gave, if the
/// attraction was found and the repository answered.
pub fn ratings_for(
    attraction: Option<FullAttraction>,
    ratings: Result<Vec<AttractionRating>, String>,
) -> (r: Option<Vec<AttractionRating>>)
    ensures
        r == (match (attraction, ratings) {
            (Some(_), Ok(found)) => Some(found),
            _ => None,
        }),
{
    match (attraction, ratings) {
        (Some(_), Ok(found)) => Some(found),
        _ => None,
    }
}

} // verus!
