//! Aggregates as clients see them, and what a client is told of a run.

use crate::decimal::Decimal;
use crate::errors::{EngineError, Error};
use crate::model::attraction::AttractionRatingAggregate;
use crate::time::Timestamp;
use vstd::prelude::*;

verus! {

/// A daily aggregate as a client sees it.
#[derive(Debug)]
pub struct RatingAggregateDto {
    pub attraction_id: i32,
    pub at: Timestamp,
    pub average: Decimal,
    pub percentile_95: Decimal,
    pub percentile_99: Decimal,
}

impl RatingAggregateDto {
    /// `self` shows `a_rating_aggregate`.
    pub open spec fn shows(self, a_rating_aggregate: AttractionRatingAggregate) -> bool {
        &&& self.attraction_id == a_rating_aggregate.attraction_id
        &&& self.at == a_rating_aggregate.at
        &&& self.average@ == a_rating_aggregate.average@
        &&& self.percentile_95@ == a_rating_aggregate.ninety_five_percentile@
        &&& self.percentile_99@ == a_rating_aggregate.ninety_nine_percentile@
    }

    pub fn new(a_rating_aggregate: &AttractionRatingAggregate) -> (r: Self)
        ensures
            r.shows(*a_rating_aggregate),
    {
        RatingAggregateDto {
            attraction_id: a_rating_aggregate.get_attraction_id(),
            at: a_rating_aggregate.get_at(),
            average: a_rating_aggregate.get_average(),
            percentile_95: a_rating_aggregate.get_95_percentile(),
            percentile_99: a_rating_aggregate.get_99_percentile(),
        }
    }
}

/// The aggregates as clients see them, in the same order.
pub fn list_ratings_aggregate(aggregates: &Vec<AttractionRatingAggregate>) -> (dtos: Vec<
    RatingAggregateDto,
>)
    ensures
        dtos.len() == aggregates.len(),
        forall|i: int| 0 <= i < dtos.len() ==> (#[trigger] dtos[i]).shows(aggregates[i]),
{
    let mut dtos: Vec<RatingAggregateDto> = Vec::new();
    let mut i: usize = 0;
    while i < aggregates.len()
        invariant
            i <= aggregates.len(),
            dtos.len() == i,
            forall|j: int| 0 <= j < i ==> (#[trigger] dtos[j]).shows(aggregates[j]),
        decreases aggregates.len() - i,
    {
        dtos.push(RatingAggregateDto::new(&aggregates[i]));
        i += 1;
    }
    dtos
}

/// What a client is told of a run: nothing where it ended well, that the
/// similarity could not be generated where it did not.
pub fn calculate(outcome: Result<(), EngineError>) -> (r: Result<(), Error>)
    ensures
        r == (match outcome {
            Ok(_) => Ok::<(), Error>(()),
            Err(_) => Err(Error::GenerateSimilarityFail),
        }),
{
    match outcome {
        Ok(_) => Ok(()),
        Err(_) => Err(Error::GenerateSimilarityFail),
    }
}

} // verus!
