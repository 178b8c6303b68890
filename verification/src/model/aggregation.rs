//! Daily statistics of a bucket of ratings: the mean and two nearest-rank
//! percentiles.

use crate::decimal::{lemma_pow10_adds, mean_view, pow10, Decimal, DecimalView};
use crate::errors::AggregationError;
use crate::model::attraction::{AggregateView, AttractionRating, AttractionRatingAggregate};
use crate::time::{Date, Timestamp};
use vstd::prelude::*;

verus! {

/// The position of the `percent`-th percentile among `count` values in
/// ascending order, counted from zero: `percent * count / 100` rounded down,
/// and never beyond the last position.
pub open spec fn percentile_index(percent: int, count: int) -> int {
    let index = percent * count / 100;
    if index < count {
        index
    } else {
        count - 1
    }
}

/// Below 100 percent the rounded-down rank is a position of its own accord:
/// nothing has to be held back.
pub proof fn lemma_percentile_index_in_bounds(percent: int, count: int)
    requires
        0 <= percent < 100,
        count > 0,
    ensures
        percentile_index(percent, count) == percent * count / 100,
        0 <= percentile_index(percent, count) <= count - 1,
{
    assert(0 <= percent * count < 100 * count) by (nonlinear_arith)
        requires
            0 <= percent < 100,
            count > 0,
    ;
}

/// Of a single value every percentile is that value.
pub proof fn lemma_percentile_of_one(percent: int)
    requires
        0 <= percent <= 100,
    ensures
        percentile_index(percent, 1) == 0,
{
}

/// A higher percentile stands no earlier than a lower one.
pub proof fn lemma_percentile_index_grows(lower: int, higher: int, count: int)
    requires
        0 <= lower <= higher,
        count > 0,
    ensures
        0 <= percentile_index(lower, count) <= percentile_index(higher, count) < count,
{
    assert(0 <= lower * count <= higher * count) by (nonlinear_arith)
        requires
            0 <= lower <= higher,
            count > 0,
    ;
}

/// The ratings come in ascending order of rate.
pub open spec fn ascending_by_rate(ratings: Seq<AttractionRating>) -> bool {
    forall|i: int, j: int|
        0 <= i <= j < ratings.len() ==> !(#[trigger] ratings[j]).rate@.less_than(
            (#[trigger] ratings[i]).rate@,
        )
}

/// Of ratings in ascending order, the 99th percentile is no smaller than the
/// 95th, and no rating that stands before a percentile is greater than it.
pub proof fn lemma_percentiles_of_ascending_ratings(ratings: Seq<AttractionRating>, i: int)
    requires
        ascending_by_rate(ratings),
        ratings.len() > 0,
        0 <= i <= percentile_index(95, ratings.len() as int),
    ensures
        !ratings[percentile_index(99, ratings.len() as int)].rate@.less_than(
            ratings[percentile_index(95, ratings.len() as int)].rate@,
        ),
        !ratings[percentile_index(95, ratings.len() as int)].rate@.less_than(ratings[i].rate@),
{
    lemma_percentile_index_grows(95, 99, ratings.len() as int);
}

/// The position of the `percent`-th percentile among `count` values.
pub fn percentile_position(percent: u8, count: usize) -> (index: usize)
    requires
        percent <= 100,
        count > 0,
    ensures
        index == percentile_index(percent as int, count as int),
        index < count,
{
    assert((percent as u128) * (count as u128) <= 100 * (count as u128)) by (nonlinear_arith)
        requires
            percent <= 100,
    ;
    let product: u128 = (percent as u128) * (count as u128);
    let index: u128 = product / 100;
    if index < count as u128 {
        index as usize
    } else {
        count - 1
    }
}

/// The exact sum of the rates, in the order of the ratings.
pub open spec fn sum_of_rates(ratings: Seq<AttractionRating>) -> DecimalView
    decreases ratings.len(),
{
    if ratings.len() == 0 {
        DecimalView { unscaled: 0, scale: 0 }
    } else {
        sum_of_rates(ratings.drop_last()).plus(ratings.last().rate@)
    }
}

/// The scale of the sum: the largest scale among the rates, and no less than
/// zero.
pub open spec fn scale_of_sum(ratings: Seq<AttractionRating>) -> int
    decreases ratings.len(),
{
    if ratings.len() == 0 {
        0
    } else {
        let earlier = scale_of_sum(ratings.drop_last());
        let last = ratings.last().rate@.scale;
        if earlier >= last {
            earlier
        } else {
            last
        }
    }
}

/// The rates, each written as an integer at `scale`, added up.
pub open spec fn unscaled_sum(ratings: Seq<AttractionRating>, scale: int) -> int
    decreases ratings.len(),
{
    if ratings.len() == 0 {
        0
    } else {
        unscaled_sum(ratings.drop_last(), scale) + ratings.last().rate@.rescaled(scale)
    }
}

/// No rate has a larger scale than the sum.
pub proof fn lemma_scale_of_sum_is_largest(ratings: Seq<AttractionRating>, i: int)
    requires
        0 <= i < ratings.len(),
    ensures
        ratings[i].rate@.scale <= scale_of_sum(ratings),
        0 <= scale_of_sum(ratings),
    decreases ratings.len(),
{
    if i < ratings.len() - 1 {
        lemma_scale_of_sum_is_largest(ratings.drop_last(), i);
    } else if ratings.len() > 1 {
        lemma_scale_of_sum_is_largest(ratings.drop_last(), 0);
    }
}

/// Written at a larger scale, the integer sum is multiplied by the power of
/// ten between the scales.
pub proof fn lemma_unscaled_sum_rescales(ratings: Seq<AttractionRating>, from: int, to: int)
    requires
        scale_of_sum(ratings) <= from <= to,
    ensures
        unscaled_sum(ratings, to) == unscaled_sum(ratings, from) * pow10((to - from) as nat),
    decreases ratings.len(),
{
    if ratings.len() == 0 {
        assert(0 * pow10((to - from) as nat) == 0);
    } else {
        let earlier = ratings.drop_last();
        let last = ratings.last().rate@;
        lemma_unscaled_sum_rescales(earlier, from, to);
        lemma_pow10_adds((from - last.scale) as nat, (to - from) as nat);
        let shift = pow10((to - from) as nat);
        let before = pow10((from - last.scale) as nat);
        assert(last.unscaled * (before * shift) == (last.unscaled * before) * shift)
            by (nonlinear_arith);
        assert((unscaled_sum(earlier, from) + last.rescaled(from)) * shift == unscaled_sum(
            earlier,
            from,
        ) * shift + last.rescaled(from) * shift) by (nonlinear_arith);
    }
}

/// The sum is exact: it is the sum of the rates as integers at the largest
/// scale among them, carried at that scale. Nothing is rounded.
pub proof fn lemma_sum_of_rates_is_exact(ratings: Seq<AttractionRating>)
    ensures
        sum_of_rates(ratings) == (DecimalView {
            unscaled: unscaled_sum(ratings, scale_of_sum(ratings)),
            scale: scale_of_sum(ratings),
        }),
    decreases ratings.len(),
{
    if ratings.len() > 0 {
        let earlier = ratings.drop_last();
        lemma_sum_of_rates_is_exact(earlier);
        if earlier.len() > 0 {
            lemma_scale_of_sum_is_largest(earlier, 0);
        }
        lemma_unscaled_sum_rescales(earlier, scale_of_sum(earlier), scale_of_sum(ratings));
    }
}

/// The exact sum of the rates.
pub fn total_of_rates(ratings: &Vec<AttractionRating>) -> (total: Decimal)
    ensures
        total@ == sum_of_rates(ratings@),
{
    let mut total = Decimal::zero();
    let mut i: usize = 0;
    while i < ratings.len()
        invariant
            i <= ratings.len(),
            total@ == sum_of_rates(ratings@.take(i as int)),
        decreases ratings.len() - i,
    {
        proof {
            assert(ratings@.take(i + 1).drop_last() =~= ratings@.take(i as int));
        }
        total = total.plus(&ratings[i].rate);
        i += 1;
    }
    proof {
        assert(ratings@.take(ratings.len() as int) =~= ratings@);
    }
    total
}

/// The mean and the percentiles of a bucket.
#[derive(Debug)]
pub struct RatingStatistics {
    pub average: Decimal,
    pub ninety_five_percentile: Decimal,
    pub ninety_nine_percentile: Decimal,
}

/// The mean of the rates: their exact sum divided by their number.
pub open spec fn mean_of_rates(ratings: Seq<AttractionRating>) -> DecimalView {
    mean_view(sum_of_rates(ratings), ratings.len() as int)
}

/// The statistics of a bucket whose ratings come in ascending order of rate.
///
/// The mean is the exact decimal sum divided by the count; each percentile is
/// the rate at its nearest rank. An empty bucket is refused.
pub fn rating_statistics(ratings: &Vec<AttractionRating>) -> (r: Result<
    RatingStatistics,
    AggregationError,
>)
    ensures
        match r {
            Ok(s) => {
                &&& ratings.len() > 0
                &&& s.average@ == mean_of_rates(ratings@)
                &&& s.average@.in_range()
                &&& s.ninety_five_percentile@ == ratings@[percentile_index(
                    95,
                    ratings.len() as int,
                )].rate@
                &&& s.ninety_nine_percentile@ == ratings@[percentile_index(
                    99,
                    ratings.len() as int,
                )].rate@
            },
            Err(AggregationError::EmptyBucket) => ratings.len() == 0,
            Err(AggregationError::AverageOutOfRange) => ratings.len() > 0 && !mean_of_rates(
                ratings@,
            ).in_range(),
            Err(_) => false,
        },
{
    let count = ratings.len();
    if count == 0 {
        return Err(AggregationError::EmptyBucket);
    }
    let ninety_five_percentile = ratings[percentile_position(95, count)].rate.clone();
    let ninety_nine_percentile = ratings[percentile_position(99, count)].rate.clone();
    let total = total_of_rates(ratings);
    match total.divided_by_count(count as u64) {
        Some(average) => Ok(RatingStatistics { average, ninety_five_percentile, ninety_nine_percentile }),
        None => Err(AggregationError::AverageOutOfRange),
    }
}

/// The aggregate row of attraction `attraction_id` for the day `at`, not yet
/// stored: its `id` is 0, its instant the day's midnight, its mean the exact
/// sum divided by the count and each percentile the rate at its nearest rank.
pub open spec fn aggregate_of(attraction_id: i32, at: Date, ratings: Seq<AttractionRating>) -> AggregateView {
    AggregateView {
        id: 0,
        attraction_id,
        at: Timestamp::midnight_of(at),
        average: mean_of_rates(ratings),
        ninety_five_percentile: ratings[percentile_index(95, ratings.len() as int)].rate@,
        ninety_nine_percentile: ratings[percentile_index(99, ratings.len() as int)].rate@,
    }
}

/// There is a rating, and the mean is a decimal that can be carried.
pub open spec fn can_aggregate(ratings: Seq<AttractionRating>) -> bool {
    ratings.len() > 0 && mean_of_rates(ratings).in_range()
}

/// The aggregate row of attraction `attraction_id` for the day `at`, not yet
/// stored, from the day's ratings in ascending order of rate.
pub fn daily_aggregate(attraction_id: i32, at: Date, ratings: &Vec<AttractionRating>) -> (r: Result<
    AttractionRatingAggregate,
    AggregationError,
>)
    ensures
        match r {
            Ok(a) => can_aggregate(ratings@) && a@ == aggregate_of(attraction_id, at, ratings@),
            Err(AggregationError::EmptyBucket) => ratings.len() == 0,
            Err(AggregationError::AverageOutOfRange) => ratings.len() > 0 && !mean_of_rates(
                ratings@,
            ).in_range(),
            Err(_) => false,
        },
{
    match rating_statistics(ratings) {
        Ok(statistics) => Ok(
            AttractionRatingAggregate {
                id: 0,
                attraction_id,
                at: Timestamp::at_midnight(at),
                average: statistics.average,
                ninety_five_percentile: statistics.ninety_five_percentile,
                ninety_nine_percentile: statistics.ninety_nine_percentile,
            },
        ),
        Err(e) => Err(e),
    }
}

} // verus!
