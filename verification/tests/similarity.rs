use attractions::decimal::Decimal;
use attractions::model::similarity_generator::{
    are_ratings_close, normalize, points_between, points_for_distance, AttractionInfo,
    Similarity, SimilarityCalculator, MAX_POINTS,
};

fn decimal(unscaled: i64, scale: i64) -> Decimal {
    Decimal::new(unscaled, scale).unwrap()
}

fn info(id: i32, kind: i32, rating_hundredths: i64, location: Option<(&str, &str)>) -> AttractionInfo {
    AttractionInfo {
        attraction_id: id,
        attraction_type_id: kind,
        avg_rating: decimal(rating_hundredths, 2),
        latitude: location.map(|l| l.0.to_string()),
        longitude: location.map(|l| l.1.to_string()),
    }
}

fn one() -> Decimal {
    decimal(1, 0)
}

#[test]
fn distance_thresholds() {
    assert_eq!(points_for_distance(None), 0);
    assert_eq!(points_for_distance(Some(0)), 10);
    assert_eq!(points_for_distance(Some(4)), 10);
    assert_eq!(points_for_distance(Some(5)), 5);
    assert_eq!(points_for_distance(Some(9)), 5);
    assert_eq!(points_for_distance(Some(10)), 2);
    assert_eq!(points_for_distance(Some(19)), 2);
    assert_eq!(points_for_distance(Some(20)), 0);
    assert_eq!(points_for_distance(Some(1_000_000)), 0);
    assert_eq!(points_for_distance(Some(-1)), 0);
    assert_eq!(points_for_distance(Some(i128::MAX)), 0);
    assert_eq!(points_for_distance(Some(i128::MIN)), 0);
}

#[test]
fn ratings_are_close_below_one_hundredth() {
    assert!(are_ratings_close(&decimal(450, 2), &decimal(450, 2)));
    assert!(are_ratings_close(&decimal(4500, 3), &decimal(4509, 3)));
    assert!(are_ratings_close(&decimal(4509, 3), &decimal(4500, 3)));
    assert!(!are_ratings_close(&decimal(450, 2), &decimal(451, 2)));
    assert!(!are_ratings_close(&decimal(451, 2), &decimal(450, 2)));
    assert!(!are_ratings_close(&decimal(1, 0), &decimal(2, 0)));
    assert!(are_ratings_close(&decimal(-1, 3), &decimal(1, 3)));
}

#[test]
fn alike_attractions_score_one() {
    let a = info(1, 3, 450, Some(("52.5186", "13.4081")));
    let b = info(2, 3, 450, Some(("52.5186", "13.4081")));
    assert_eq!(points_between(&a, &b, Some(0)), MAX_POINTS);
    let score = SimilarityCalculator.similarity_between(&a, &b, Some(0));
    assert!(score.same_number(&one()));
    assert_eq!(
        score.to_parts(),
        (false, vec![1, 0, 0, 0, 0, 0, 0, 0, 0, 0, 0, 0, 0, 0, 0, 0, 0], 16)
    );
}

#[test]
fn self_pair_scores_one() {
    let a = info(1, 3, 450, Some(("52.5186", "13.4081")));
    let score = SimilarityCalculator.similarity_between(&a, &a, Some(0));
    assert!(score.same_number(&one()));
}

#[test]
fn self_pair_without_location_scores_two_thirds() {
    let a = info(1, 3, 450, None);
    assert_eq!(points_between(&a, &a, Some(0)), 20);
    let score = SimilarityCalculator.similarity_between(&a, &a, Some(0));
    assert_eq!(
        score.to_parts(),
        (false, vec![6, 6, 6, 6, 6, 6, 6, 6, 6, 6, 6, 6, 6, 6, 6, 7], 16)
    );
}

#[test]
fn missing_location_earns_nothing_for_distance() {
    let known = info(1, 3, 450, Some(("52.5186", "13.4081")));
    let unknown = info(2, 3, 450, None);
    assert_eq!(points_between(&known, &unknown, Some(0)), 20);
    assert_eq!(points_between(&unknown, &known, Some(0)), 20);
    assert_eq!(points_between(&known, &unknown, None), 20);
    let only_latitude = AttractionInfo { longitude: None, ..info(3, 3, 450, Some(("1", "2"))) };
    assert!(only_latitude.has_unknown_location());
    assert_eq!(points_between(&known, &only_latitude, Some(0)), 20);
    let only_longitude = AttractionInfo { latitude: None, ..info(3, 3, 450, Some(("1", "2"))) };
    assert!(only_longitude.has_unknown_location());
    assert_eq!(points_between(&only_longitude, &known, Some(0)), 20);
    assert!(!known.has_unknown_location());
}

#[test]
fn every_component_counts_by_itself() {
    let a = info(1, 3, 450, Some(("52.5186", "13.4081")));
    let other_type = info(2, 4, 450, Some(("52.5186", "13.4081")));
    let other_rating = info(3, 3, 300, Some(("52.5186", "13.4081")));
    let nothing_alike = info(4, 9, 100, Some(("0", "0")));
    assert_eq!(points_between(&a, &other_type, Some(0)), 20);
    assert_eq!(points_between(&a, &other_rating, Some(0)), 20);
    assert_eq!(points_between(&a, &other_type, Some(7)), 15);
    assert_eq!(points_between(&a, &other_type, Some(15)), 12);
    assert_eq!(points_between(&a, &other_type, Some(25)), 10);
    assert_eq!(points_between(&a, &other_type, None), 10);
    assert_eq!(points_between(&a, &nothing_alike, Some(5_000_000)), 0);
    assert_eq!(points_between(&a, &nothing_alike, Some(3)), 10);
    assert_eq!(points_between(&a, &nothing_alike, Some(6)), 5);
    assert_eq!(points_between(&a, &nothing_alike, Some(12)), 2);
}

#[test]
fn normalize_divides_by_thirty() {
    assert_eq!(normalize(0).to_parts(), (false, vec![0], 16));
    assert_eq!(
        normalize(10).to_parts(),
        (false, vec![3, 3, 3, 3, 3, 3, 3, 3, 3, 3, 3, 3, 3, 3, 3, 3], 16)
    );
    assert_eq!(normalize(15).to_parts(), (false, vec![5, 0, 0, 0, 0, 0, 0, 0, 0, 0, 0, 0, 0, 0, 0, 0], 16));
    assert_eq!(
        normalize(2).to_parts(),
        (false, vec![6, 6, 6, 6, 6, 6, 6, 6, 6, 6, 6, 6, 6, 6, 7], 16)
    );
    assert_eq!(
        normalize(25).to_parts(),
        (false, vec![8, 3, 3, 3, 3, 3, 3, 3, 3, 3, 3, 3, 3, 3, 3, 3], 16)
    );
    assert!(normalize(30).same_number(&one()));
    assert!(normalize(12).same_number(&decimal(4, 1)));
}

#[test]
fn scores_stay_between_zero_and_one() {
    let zero = Decimal::zero();
    for points in 0..=30u8 {
        let score = normalize(points);
        assert!(!score.less_than(&zero));
        assert!(!one().less_than(&score));
    }
}

#[test]
fn score_is_the_same_in_both_directions() {
    let a = info(1, 3, 450, Some(("52.5186", "13.4081")));
    let b = info(2, 4, 4505, Some(("52.5187", "13.4081")));
    let there = SimilarityCalculator.similarity_between(&a, &b, Some(11));
    let back = SimilarityCalculator.similarity_between(&b, &a, Some(11));
    assert_eq!(there.to_parts(), back.to_parts());
}
