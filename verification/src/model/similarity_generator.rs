//! How similar two attractions are.
//!
//! The score adds up to ten points for a short distance, ten for the same
//! type and ten for average ratings that are close, and divides by thirty.

use crate::decimal::{lemma_pow10_positive, pow10, Decimal, DecimalView};
use vstd::prelude::*;

verus! {

/// What the score of an attraction is computed from.
#[derive(Debug)]
pub struct AttractionInfo {
    pub attraction_id: i32,
    pub attraction_type_id: i32,
    pub avg_rating: Decimal,
    pub latitude: Option<String>,
    pub longitude: Option<String>,
}

impl AttractionInfo {
    /// The latitude or the longitude is missing.
    pub open spec fn unknown_location(&self) -> bool {
        self.latitude is None || self.longitude is None
    }

    /// Whether the latitude or the longitude is missing.
    pub fn has_unknown_location(&self) -> (r: bool)
        ensures
            r == self.unknown_location(),
    {
        self.latitude.is_none() || self.longitude.is_none()
    }
}

/// The most points that a pair can score.
pub const MAX_POINTS: u8 = 30;

/// The number of digits after the decimal point of a score.
pub const SIMILARITY_SCALE: i64 = 16;

/// Ten to the power [`SIMILARITY_SCALE`].
pub const SIMILARITY_UNIT: u64 = 10_000_000_000_000_000;

/// Points for a distance in whole meters: ten below 5 m, five below 10 m, two
/// below 20 m, none from there on or where the distance is not known.
pub open spec fn distance_points(distance: Option<i128>) -> int {
    match distance {
        None => 0,
        Some(meters) => if 0 <= meters < 5 {
            10
        } else if 5 <= meters < 10 {
            5
        } else if 10 <= meters < 20 {
            2
        } else {
            0
        },
    }
}

/// Points for the distance between two attractions: those of
/// [`distance_points`] where both locations are known, none otherwise,
/// whatever distance is given.
pub open spec fn location_points(
    one: AttractionInfo,
    another: AttractionInfo,
    distance: Option<i128>,
) -> int {
    if one.unknown_location() || another.unknown_location() {
        0
    } else {
        distance_points(distance)
    }
}

/// Ten points where the types are the same.
pub open spec fn type_points(one: AttractionInfo, another: AttractionInfo) -> int {
    if one.attraction_type_id == another.attraction_type_id {
        10
    } else {
        0
    }
}

/// The two averages differ by less than 0.01.
pub open spec fn ratings_close(one: DecimalView, another: DecimalView) -> bool {
    one.minus(another).abs().less_than(DecimalView { unscaled: 1, scale: 2 })
}

/// Ten points where the average ratings are close.
pub open spec fn rating_points(one: AttractionInfo, another: AttractionInfo) -> int {
    if ratings_close(one.avg_rating@, another.avg_rating@) {
        10
    } else {
        0
    }
}

/// The points of a pair: between 0 and [`MAX_POINTS`].
pub open spec fn similarity_points(
    one: AttractionInfo,
    another: AttractionInfo,
    distance: Option<i128>,
) -> int {
    location_points(one, another, distance) + type_points(one, another) + rating_points(
        one,
        another,
    )
}

/// `points / 30` as a decimal with [`SIMILARITY_SCALE`] digits after the
/// point, rounded half up.
pub open spec fn normalized(points: int) -> DecimalView {
    DecimalView {
        unscaled: (points * pow10(SIMILARITY_SCALE as nat) + 15) / 30,
        scale: SIMILARITY_SCALE as int,
    }
}

/// The number one.
pub open spec fn one() -> DecimalView {
    DecimalView { unscaled: 1, scale: 0 }
}

/// A way to score the similarity of two attractions.
pub trait Similarity {
    /// The score that this way gives to a pair.
    spec fn similarity(
        &self,
        one: AttractionInfo,
        another: AttractionInfo,
        distance: Option<i128>,
    ) -> DecimalView;

    /// The similarity of two attractions. `distance` is the distance between
    /// them in whole meters, where it could be measured.
    fn similarity_between(
        &self,
        one_attraction: &AttractionInfo,
        another_attraction: &AttractionInfo,
        distance: Option<i128>,
    ) -> (r: Decimal)
        ensures
            r@ == self.similarity(*one_attraction, *another_attraction, distance),
    ;
}

/// Scores by distance, type and closeness of the average ratings.
#[derive(Clone, Copy, Debug)]
pub struct SimilarityCalculator;

impl Default for SimilarityCalculator {
    fn default() -> (r: Self)
        ensures
            r == SimilarityCalculator,
    {
        SimilarityCalculator
    }
}

/// Points for a distance in whole meters.
pub fn points_for_distance(distance: Option<i128>) -> (points: u8)
    ensures
        points == distance_points(distance),
{
    match distance {
        None => 0,
        Some(meters) => if 0 <= meters && meters < 5 {
            10
        } else if 5 <= meters && meters < 10 {
            5
        } else if 10 <= meters && meters < 20 {
            2
        } else {
            0
        },
    }
}

/// Whether two averages differ by less than 0.01.
pub fn are_ratings_close(one: &Decimal, another: &Decimal) -> (r: bool)
    ensures
        r == ratings_close(one@, another@),
{
    one.minus(another).abs().less_than(&Decimal::one_hundredth())
}

/// The points of a pair.
pub fn points_between(
    one_attraction: &AttractionInfo,
    another_attraction: &AttractionInfo,
    distance: Option<i128>,
) -> (points: u8)
    ensures
        points == similarity_points(*one_attraction, *another_attraction, distance),
        points <= MAX_POINTS,
{
    let mut points: u8 = 0;
    if !one_attraction.has_unknown_location() && !another_attraction.has_unknown_location() {
        points = points + points_for_distance(distance);
    }
    if one_attraction.attraction_type_id == another_attraction.attraction_type_id {
        points = points + 10;
    }
    if are_ratings_close(&one_attraction.avg_rating, &another_attraction.avg_rating) {
        points = points + 10;
    }
    points
}

/// [`SIMILARITY_UNIT`] is ten to the power [`SIMILARITY_SCALE`].
pub proof fn lemma_similarity_unit()
    ensures
        pow10(SIMILARITY_SCALE as nat) == SIMILARITY_UNIT,
{
    reveal_with_fuel(pow10, 17);
}

/// `points / 30` as a decimal.
pub fn normalize(points: u8) -> (r: Decimal)
    requires
        points <= MAX_POINTS,
    ensures
        r@ == normalized(points as int),
{
    proof {
        lemma_similarity_unit();
    }
    let unscaled: u64 = (points as u64 * SIMILARITY_UNIT + 15) / 30;
    Decimal::from_scaled_u64(unscaled, SIMILARITY_SCALE)
}

impl Similarity for SimilarityCalculator {
    open spec fn similarity(
        &self,
        one: AttractionInfo,
        another: AttractionInfo,
        distance: Option<i128>,
    ) -> DecimalView {
        normalized(similarity_points(one, another, distance))
    }

    fn similarity_between(
        &self,
        one_attraction: &AttractionInfo,
        another_attraction: &AttractionInfo,
        distance: Option<i128>,
    ) -> (r: Decimal) {
        normalize(points_between(one_attraction, another_attraction, distance))
    }
}

/// A score is a number between zero and one.
pub proof fn lemma_score_between_zero_and_one(
    one: AttractionInfo,
    another: AttractionInfo,
    distance: Option<i128>,
)
    ensures
        0 <= similarity_points(one, another, distance) <= MAX_POINTS,
        0 <= normalized(similarity_points(one, another, distance)).unscaled <= pow10(
            SIMILARITY_SCALE as nat,
        ),
{
    lemma_similarity_unit();
}

/// Thirty points make the score one, and no fewer points do.
pub proof fn lemma_full_points_score_one(points: int)
    requires
        0 <= points <= MAX_POINTS,
    ensures
        normalized(points).same_number(one()) <==> points == MAX_POINTS,
{
    lemma_similarity_unit();
    assert(pow10(0) == 1);
}

/// Two attractions of the same type, with known locations less than five
/// meters apart and with average ratings that differ by less than 0.01, score
/// one.
pub proof fn lemma_alike_attractions_score_one(
    one_attraction: AttractionInfo,
    another_attraction: AttractionInfo,
    distance: Option<i128>,
)
    requires
        one_attraction.attraction_type_id == another_attraction.attraction_type_id,
        !one_attraction.unknown_location(),
        !another_attraction.unknown_location(),
        distance matches Some(meters) && 0 <= meters < 5,
        ratings_close(one_attraction.avg_rating@, another_attraction.avg_rating@),
    ensures
        similarity_points(one_attraction, another_attraction, distance) == MAX_POINTS,
        SimilarityCalculator.similarity(one_attraction, another_attraction, distance).same_number(
            one(),
        ),
{
    lemma_full_points_score_one(MAX_POINTS as int);
}

/// Where a location is missing the distance earns nothing, however close the
/// attractions are said to be.
pub proof fn lemma_unknown_location_earns_nothing(
    one_attraction: AttractionInfo,
    another_attraction: AttractionInfo,
    distance: Option<i128>,
)
    requires
        one_attraction.unknown_location() || another_attraction.unknown_location(),
    ensures
        location_points(one_attraction, another_attraction, distance) == 0,
        similarity_points(one_attraction, another_attraction, distance) == similarity_points(
            one_attraction,
            another_attraction,
            None,
        ),
        similarity_points(one_attraction, another_attraction, distance) <= 20,
{
}

/// Which of the two attractions comes first makes no difference to the
/// points, nor to the score.
pub proof fn lemma_points_are_symmetric(
    one_attraction: AttractionInfo,
    another_attraction: AttractionInfo,
    distance: Option<i128>,
)
    ensures
        similarity_points(one_attraction, another_attraction, distance) == similarity_points(
            another_attraction,
            one_attraction,
            distance,
        ),
        SimilarityCalculator.similarity(one_attraction, another_attraction, distance)
            == SimilarityCalculator.similarity(another_attraction, one_attraction, distance),
{
    let a = one_attraction.avg_rating@;
    let b = another_attraction.avg_rating@;
    assert(a.minus(b).unscaled == -b.minus(a).unscaled);
    assert(a.minus(b).abs() == b.minus(a).abs());
}

/// A number is close to itself.
pub proof fn lemma_rating_close_to_itself(rating: DecimalView)
    ensures
        ratings_close(rating, rating),
{
    let difference = rating.minus(rating).abs();
    assert(difference.unscaled == 0);
    let threshold = DecimalView { unscaled: 1, scale: 2 };
    let scale = difference.common_scale(threshold);
    lemma_pow10_positive((scale - threshold.scale) as nat);
    assert(difference.rescaled(scale) == 0) by (nonlinear_arith)
        requires
            difference.unscaled == 0,
            difference.rescaled(scale) == difference.unscaled * pow10(
                (scale - difference.scale) as nat,
            ),
    ;
}

/// An attraction whose location is known, at distance zero from itself,
/// scores one with itself.
pub proof fn lemma_self_pair_scores_one(attraction: AttractionInfo)
    requires
        !attraction.unknown_location(),
    ensures
        similarity_points(attraction, attraction, Some(0i128)) == MAX_POINTS,
        SimilarityCalculator.similarity(attraction, attraction, Some(0i128)).same_number(one()),
{
    lemma_rating_close_to_itself(attraction.avg_rating@);
    lemma_alike_attractions_score_one(attraction, attraction, Some(0i128));
}

} // verus!
