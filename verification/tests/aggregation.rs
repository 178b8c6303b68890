use attractions::decimal::Decimal;
use attractions::errors::AggregationError;
use attractions::model::aggregation::{
    daily_aggregate, percentile_position, rating_statistics, total_of_rates,
};
use attractions::model::attraction::AttractionRating;
use attractions::time::{Date, Timestamp};

fn decimal(unscaled: i64, scale: i64) -> Decimal {
    Decimal::new(unscaled, scale).unwrap()
}

fn rating(id: i32, attraction_id: i32, day: i32, hundredths: i64) -> AttractionRating {
    AttractionRating {
        id,
        at: Timestamp {
            date: Date { days_from_ce: day },
            seconds_from_midnight: 3600,
            nanoseconds: 0,
        },
        attraction_id,
        rate: decimal(hundredths, 2),
    }
}

#[test]
fn average_of_one_two_three_is_two() {
    let ratings = vec![rating(1, 7, 100, 100), rating(2, 7, 100, 200), rating(3, 7, 100, 300)];
    let statistics = rating_statistics(&ratings).unwrap();
    assert!(statistics.average.same_number(&decimal(200, 2)));
    assert_eq!(statistics.average.to_parts(), (false, vec![2, 0, 0], 2));
}

#[test]
fn single_rating_is_its_own_percentiles() {
    let ratings = vec![rating(1, 7, 100, 450)];
    let statistics = rating_statistics(&ratings).unwrap();
    assert!(statistics.ninety_five_percentile.same_number(&decimal(450, 2)));
    assert!(statistics.ninety_nine_percentile.same_number(&decimal(450, 2)));
    assert!(statistics.average.same_number(&decimal(450, 2)));
}

#[test]
fn empty_bucket_is_refused() {
    let ratings: Vec<AttractionRating> = Vec::new();
    assert!(matches!(rating_statistics(&ratings), Err(AggregationError::EmptyBucket)));
    assert!(matches!(
        daily_aggregate(7, Date { days_from_ce: 100 }, &ratings),
        Err(AggregationError::EmptyBucket)
    ));
}

#[test]
fn twenty_evenly_spaced_ratings() {
    let mut ratings = Vec::new();
    for i in 1..=20 {
        ratings.push(rating(i, 7, 738_886, (i as i64) * 100));
    }
    let aggregate = daily_aggregate(7, Date { days_from_ce: 738_886 }, &ratings).unwrap();
    assert_eq!(aggregate.id, 0);
    assert_eq!(aggregate.attraction_id, 7);
    assert_eq!(
        aggregate.at,
        Timestamp { date: Date { days_from_ce: 738_886 }, seconds_from_midnight: 0, nanoseconds: 0 }
    );
    assert!(aggregate.average.same_number(&decimal(1050, 2)));
    assert!(aggregate.ninety_five_percentile.same_number(&decimal(2000, 2)));
    assert!(aggregate.ninety_nine_percentile.same_number(&decimal(2000, 2)));
}

#[test]
fn percentile_positions() {
    assert_eq!(percentile_position(95, 1), 0);
    assert_eq!(percentile_position(99, 1), 0);
    assert_eq!(percentile_position(95, 20), 19);
    assert_eq!(percentile_position(99, 20), 19);
    assert_eq!(percentile_position(95, 100), 95);
    assert_eq!(percentile_position(99, 100), 99);
    assert_eq!(percentile_position(95, 10), 9);
    assert_eq!(percentile_position(100, 10), 9);
    assert_eq!(percentile_position(0, 10), 0);
    assert_eq!(percentile_position(50, 3), 1);
}

#[test]
fn total_aligns_scales() {
    let mut ratings = vec![rating(1, 7, 100, 150)];
    ratings.push(AttractionRating { rate: decimal(25, 1), ..rating(2, 7, 100, 0) });
    ratings.push(AttractionRating { rate: decimal(-1, 3), ..rating(3, 7, 100, 0) });
    let total = total_of_rates(&ratings);
    // 1.50 + 2.5 - 0.001 = 3.999
    assert_eq!(total.to_parts(), (false, vec![3, 9, 9, 9], 3));
}

#[test]
fn mean_that_does_not_terminate_is_rounded_by_the_decimal_library() {
    let ratings = vec![rating(1, 7, 100, 100), rating(2, 7, 100, 200), rating(3, 7, 100, 200)];
    let statistics = rating_statistics(&ratings).unwrap();
    // 5.00 / 3 = 1.666...7 with one hundred significant digits
    let (negative, digits, scale) = statistics.average.to_parts();
    assert!(!negative);
    assert_eq!(digits.len(), 100);
    assert_eq!(digits[0], 1);
    assert!(digits[1..99].iter().all(|d| *d == 6));
    assert_eq!(digits[99], 7);
    assert_eq!(scale, 99);
}

#[test]
fn mean_with_too_many_digits_after_the_point_is_refused() {
    let tiny = |id: i32, unscaled: i64| AttractionRating {
        rate: Decimal::new(unscaled, attractions::decimal::MAX_SCALE).unwrap(),
        ..rating(id, 7, 100, 0)
    };
    // (1 + 2) / 2 needs one more digit than the largest scale holds
    let ratings = vec![tiny(1, 1), tiny(2, 2)];
    assert!(matches!(rating_statistics(&ratings), Err(AggregationError::AverageOutOfRange)));
    assert!(matches!(
        daily_aggregate(7, Date { days_from_ce: 100 }, &ratings),
        Err(AggregationError::AverageOutOfRange)
    ));
    // (1 + 3) / 2 does not
    let ratings = vec![tiny(1, 1), tiny(2, 3)];
    let statistics = rating_statistics(&ratings).unwrap();
    assert_eq!(statistics.average.to_parts(), (false, vec![2], attractions::decimal::MAX_SCALE));
}

#[test]
fn percentiles_are_taken_where_the_ratings_stand() {
    let mut ratings = Vec::new();
    for i in 1..=200 {
        ratings.push(rating(i, 7, 100, i as i64));
    }
    let statistics = rating_statistics(&ratings).unwrap();
    // positions 190 and 198, counted from zero
    assert_eq!(statistics.ninety_five_percentile.to_parts(), (false, vec![1, 9, 1], 2));
    assert_eq!(statistics.ninety_nine_percentile.to_parts(), (false, vec![1, 9, 9], 2));
    assert_eq!(statistics.average.to_parts(), (false, vec![1, 0, 0, 5], 3));
}
