use attractions::model::attraction::AttractionByDate;
use attractions::model::attraction_similarity::missing_aggregates;
use attractions::time::{Date, Timestamp};

fn bucket(attraction_id: i32, day: i32) -> AttractionByDate {
    AttractionByDate {
        attraction_id,
        at: Timestamp { date: Date { days_from_ce: day }, seconds_from_midnight: 0, nanoseconds: 0 },
    }
}

fn bucket_at(attraction_id: i32, day: i32, seconds: u32) -> AttractionByDate {
    AttractionByDate {
        attraction_id,
        at: Timestamp {
            date: Date { days_from_ce: day },
            seconds_from_midnight: seconds,
            nanoseconds: 5,
        },
    }
}

#[test]
fn missing_is_what_has_ratings_and_no_aggregate() {
    let ratings = vec![bucket(7, 1), bucket(7, 2), bucket(7, 3), bucket(7, 4)];
    let aggregates = vec![bucket(7, 2), bucket(7, 4)];
    assert_eq!(missing_aggregates(&ratings, &aggregates), vec![bucket(7, 1), bucket(7, 3)]);
}

#[test]
fn nothing_is_missing_without_ratings() {
    let ratings = vec![];
    let aggregates = vec![bucket(7, 2)];
    assert_eq!(missing_aggregates(&ratings, &aggregates), vec![]);
}

#[test]
fn everything_is_missing_without_aggregates() {
    let ratings = vec![bucket(7, 3), bucket(7, 1)];
    assert_eq!(missing_aggregates(&ratings, &vec![]), vec![bucket(7, 3), bucket(7, 1)]);
}

#[test]
fn a_bucket_is_missing_once() {
    let ratings = vec![bucket(7, 1), bucket(7, 2), bucket(7, 1), bucket(7, 2), bucket(7, 1)];
    assert_eq!(missing_aggregates(&ratings, &vec![]), vec![bucket(7, 1), bucket(7, 2)]);
}

#[test]
fn the_day_decides_not_the_time_of_day() {
    let ratings = vec![bucket_at(7, 1, 3600), bucket_at(7, 2, 7200), bucket_at(7, 2, 10)];
    let aggregates = vec![bucket(7, 1)];
    assert_eq!(missing_aggregates(&ratings, &aggregates), vec![bucket_at(7, 2, 7200)]);
}

#[test]
fn the_attraction_decides_too() {
    let ratings = vec![bucket(7, 1), bucket(8, 1)];
    let aggregates = vec![bucket(8, 1), bucket(9, 1)];
    assert_eq!(missing_aggregates(&ratings, &aggregates), vec![bucket(7, 1)]);
}

#[test]
fn extreme_attractions_and_days_are_told_apart() {
    let ratings = vec![
        bucket(i32::MIN, i32::MIN),
        bucket(i32::MIN, i32::MAX),
        bucket(i32::MAX, i32::MIN),
        bucket(i32::MAX, i32::MAX),
        bucket(0, -1),
        bucket(-1, 0),
    ];
    let aggregates = vec![bucket(i32::MIN, i32::MAX), bucket(-1, 0)];
    assert_eq!(
        missing_aggregates(&ratings, &aggregates),
        vec![
            bucket(i32::MIN, i32::MIN),
            bucket(i32::MAX, i32::MIN),
            bucket(i32::MAX, i32::MAX),
            bucket(0, -1),
        ]
    );
    assert_eq!(bucket(i32::MIN, i32::MIN).bucket_key(), 0);
    assert_eq!(bucket(i32::MAX, i32::MAX).bucket_key(), u64::MAX);
    assert_eq!(bucket(0, 0).bucket_key(), 0x8000_0000_8000_0000);
}

#[test]
fn once_aggregated_nothing_is_missing() {
    let ratings = vec![bucket(7, 1), bucket(7, 2), bucket(7, 3)];
    let mut aggregates = vec![bucket(7, 2)];
    let missing = missing_aggregates(&ratings, &aggregates);
    aggregates.extend(missing);
    assert_eq!(missing_aggregates(&ratings, &aggregates), vec![]);
}
