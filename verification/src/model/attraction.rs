//! The rows that the engine reads and writes.

use crate::decimal::{Decimal, DecimalView};
use crate::time::Timestamp;
use vstd::prelude::*;

verus! {

/// An attraction as it is stored.
pub struct Attraction {
    pub id: i32,
    pub description: String,
    pub city_id: i32,
    pub latitude: Option<String>,
    pub longitude: Option<String>,
    pub attraction_type_id: i32,
}

impl Attraction {
    pub fn get_id(&self) -> (r: i32)
        ensures
            r == self.id,
    {
        self.id
    }

    pub fn get_description(&self) -> (r: String)
        ensures
            r@ == self.description@,
    {
        self.description.clone()
    }

    pub fn get_city_id(&self) -> (r: i32)
        ensures
            r == self.city_id,
    {
        self.city_id
    }

    pub fn get_attraction_type_id(&self) -> (r: i32)
        ensures
            r == self.attraction_type_id,
    {
        self.attraction_type_id
    }

    pub fn get_latitude(&self) -> (r: Option<String>)
        ensures
            r is Some <==> self.latitude is Some,
            r matches Some(s) ==> s@ == self.latitude->0@,
    {
        match &self.latitude {
            Some(s) => Some(s.clone()),
            None => None,
        }
    }

    pub fn get_longitude(&self) -> (r: Option<String>)
        ensures
            r is Some <==> self.longitude is Some,
            r matches Some(s) ==> s@ == self.longitude->0@,
    {
        match &self.longitude {
            Some(s) => Some(s.clone()),
            None => None,
        }
    }
}

/// A kind of attraction.
pub struct AttractionType {
    pub id: i32,
    pub code: String,
    pub description: String,
}

/// A city.
pub struct City {
    pub id: i32,
    pub description: String,
    pub country_id: i32,
}

/// One rating that a visitor gave to an attraction.
#[derive(Debug)]
pub struct AttractionRating {
    pub id: i32,
    pub at: Timestamp,
    pub attraction_id: i32,
    pub rate: Decimal,
}

impl Clone for AttractionRating {
    fn clone(&self) -> (r: Self)
        ensures
            r.id == self.id,
            r.at == self.at,
            r.attraction_id == self.attraction_id,
            r.rate@ == self.rate@,
    {
        AttractionRating {
            id: self.id,
            at: self.at,
            attraction_id: self.attraction_id,
            rate: self.rate.clone(),
        }
    }
}

impl AttractionRating {
    pub fn get_rate(&self) -> (r: Decimal)
        ensures
            r@ == self.rate@,
    {
        self.rate.clone()
    }

    pub fn get_at(&self) -> (r: Timestamp)
        ensures
            r == self.at,
    {
        self.at
    }

    pub fn get_id(&self) -> (r: i32)
        ensures
            r == self.id,
    {
        self.id
    }

    pub fn get_attraction_id(&self) -> (r: i32)
        ensures
            r == self.attraction_id,
    {
        self.attraction_id
    }
}

/// The statistics of one attraction's ratings on one day.
#[derive(Debug)]
pub struct AttractionRatingAggregate {
    pub id: i32,
    pub attraction_id: i32,
    pub at: Timestamp,
    pub average: Decimal,
    pub ninety_five_percentile: Decimal,
    pub ninety_nine_percentile: Decimal,
}

/// The mathematical content of an [`AttractionRatingAggregate`].
pub struct AggregateView {
    pub id: i32,
    pub attraction_id: i32,
    pub at: Timestamp,
    pub average: DecimalView,
    pub ninety_five_percentile: DecimalView,
    pub ninety_nine_percentile: DecimalView,
}

impl View for AttractionRatingAggregate {
    type V = AggregateView;

    open spec fn view(&self) -> AggregateView {
        AggregateView {
            id: self.id,
            attraction_id: self.attraction_id,
            at: self.at,
            average: self.average@,
            ninety_five_percentile: self.ninety_five_percentile@,
            ninety_nine_percentile: self.ninety_nine_percentile@,
        }
    }
}

impl AttractionRatingAggregate {
    pub fn get_attraction_id(&self) -> (r: i32)
        ensures
            r == self.attraction_id,
    {
        self.attraction_id
    }

    pub fn get_at(&self) -> (r: Timestamp)
        ensures
            r == self.at,
    {
        self.at
    }

    pub fn get_average(&self) -> (r: Decimal)
        ensures
            r@ == self.average@,
    {
        self.average.clone()
    }

    pub fn get_95_percentile(&self) -> (r: Decimal)
        ensures
            r@ == self.ninety_five_percentile@,
    {
        self.ninety_five_percentile.clone()
    }

    pub fn get_99_percentile(&self) -> (r: Decimal)
        ensures
            r@ == self.ninety_nine_percentile@,
    {
        self.ninety_nine_percentile.clone()
    }
}

/// An attraction with the names of its city and of its type.
pub struct FullAttraction {
    pub attraction_id: i32,
    pub description: String,
    pub city: String,
    pub attraction_type: String,
}

impl FullAttraction {
    pub fn get_attraction_id(&self) -> (r: i32)
        ensures
            r == self.attraction_id,
    {
        self.attraction_id
    }

    pub fn get_description(&self) -> (r: String)
        ensures
            r@ == self.description@,
    {
        self.description.clone()
    }

    pub fn get_city(&self) -> (r: String)
        ensures
            r@ == self.city@,
    {
        self.city.clone()
    }

    pub fn get_attraction_type(&self) -> (r: String)
        ensures
            r@ == self.attraction_type@,
    {
        self.attraction_type.clone()
    }
}

/// A bucket: one attraction on one day. `at` is an instant of that day; two
/// buckets are the same when the attraction and the day are.
#[derive(Clone, Copy, Debug, PartialEq, Eq, Structural, Hash)]
pub struct AttractionByDate {
    pub attraction_id: i32,
    pub at: Timestamp,
}

impl AttractionByDate {
    /// The two stand for the same attraction on the same day.
    pub open spec fn same_bucket(self, other: AttractionByDate) -> bool {
        self.attraction_id == other.attraction_id && self.at.date == other.at.date
    }

    /// A number that tells buckets apart: the attraction in the upper half,
    /// the day in the lower half, each moved up to start at zero.
    pub open spec fn key(self) -> u64 {
        ((self.attraction_id + 0x8000_0000) * 0x1_0000_0000 + (self.at.date.days_from_ce
            + 0x8000_0000)) as u64
    }

    /// Two buckets have the same key exactly when they are the same bucket.
    pub proof fn lemma_key_tells_apart(self, other: AttractionByDate)
        ensures
            self.key() == other.key() <==> self.same_bucket(other),
    {
    }

    /// The key of this bucket.
    pub fn bucket_key(&self) -> (k: u64)
        ensures
            k == self.key(),
    {
        let attraction: u64 = (self.attraction_id as i64 + 0x8000_0000) as u64;
        let day: u64 = (self.at.date.days_from_ce as i64 + 0x8000_0000) as u64;
        attraction * 0x1_0000_0000 + day
    }
}

} // verus!
