//! Attractions and ratings as clients see them.

use crate::decimal::Decimal;
use crate::errors::Error;
use crate::model::attraction::{Attraction, AttractionRating, FullAttraction};
use crate::time::Timestamp;
use vstd::prelude::*;

verus! {

/// An attraction as a client sees it: with the names of its city and type
/// where it was looked up alone, with their identifiers and its location
/// where it was listed.
#[derive(Debug)]
pub struct AttractionDto {
    pub id: i32,
    pub description: String,
    pub city: Option<String>,
    pub attraction_type: Option<String>,
    pub city_id: Option<i32>,
    pub attraction_type_id: Option<i32>,
    pub latitude: Option<String>,
    pub longitude: Option<String>,
}

/// The text in `text`, if any.
pub open spec fn text_of(text: Option<String>) -> Option<Seq<char>> {
    match text {
        Some(s) => Some(s@),
        None => None,
    }
}

impl AttractionDto {
    /// `self` shows `full_attraction`: its names, and nothing else.
    pub open spec fn shows_full(self, full_attraction: FullAttraction) -> bool {
        &&& self.id == full_attraction.attraction_id
        &&& self.description@ == full_attraction.description@
        &&& text_of(self.city) == Some(full_attraction.city@)
        &&& text_of(self.attraction_type) == Some(full_attraction.attraction_type@)
        &&& self.city_id is None
        &&& self.attraction_type_id is None
        &&& self.latitude is None
        &&& self.longitude is None
    }

    /// `self` shows `an_attraction`: its identifiers and location, and no
    /// names.
    pub open spec fn shows_entity(self, an_attraction: Attraction) -> bool {
        &&& self.id == an_attraction.id
        &&& self.description@ == an_attraction.description@
        &&& self.city is None
        &&& self.attraction_type is None
        &&& self.city_id == Some(an_attraction.city_id)
        &&& self.attraction_type_id == Some(an_attraction.attraction_type_id)
        &&& text_of(self.latitude) == text_of(an_attraction.latitude)
        &&& text_of(self.longitude) == text_of(an_attraction.longitude)
    }

    pub fn from_full(full_attraction: &FullAttraction) -> (r: Self)
        ensures
            r.shows_full(*full_attraction),
    {
        AttractionDto {
            id: full_attraction.get_attraction_id(),
            description: full_attraction.get_description(),
            city: Some(full_attraction.get_city()),
            attraction_type: Some(full_attraction.get_attraction_type()),
            city_id: None,
            attraction_type_id: None,
            latitude: None,
            longitude: None,
        }
    }

    pub fn from_entity(an_attraction: &Attraction) -> (r: Self)
        ensures
            r.shows_entity(*an_attraction),
    {
        AttractionDto {
            id: an_attraction.get_id(),
            description: an_attraction.get_description(),
            city: None,
            attraction_type: None,
            city_id: Some(an_attraction.get_city_id()),
            attraction_type_id: Some(an_attraction.get_attraction_type_id()),
            latitude: an_attraction.get_latitude(),
            longitude: an_attraction.get_longitude(),
        }
    }
}

impl Clone for AttractionDto {
    fn clone(&self) -> (r: Self)
        ensures
            r.id == self.id,
            r.description@ == self.description@,
            text_of(r.city) == text_of(self.city),
            text_of(r.attraction_type) == text_of(self.attraction_type),
            r.city_id == self.city_id,
            r.attraction_type_id == self.attraction_type_id,
            text_of(r.latitude) == text_of(self.latitude),
            text_of(r.longitude) == text_of(self.longitude),
    {
        AttractionDto {
            id: self.id,
            description: self.description.clone(),
            city: self.city.clone(),
            attraction_type: self.attraction_type.clone(),
            city_id: self.city_id,
            attraction_type_id: self.attraction_type_id,
            latitude: self.latitude.clone(),
            longitude: self.longitude.clone(),
        }
    }
}

impl Default for AttractionDto {
    fn default() -> (r: Self)
        ensures
            r.id == 0,
            r.description@.len() == 0,
            r.city is None,
            r.attraction_type is None,
            r.city_id is None,
            r.attraction_type_id is None,
            r.latitude is None,
            r.longitude is None,
    {
        AttractionDto {
            id: 0,
            description: String::new(),
            city: None,
            attraction_type: None,
            city_id: None,
            attraction_type_id: None,
            latitude: None,
            longitude: None,
        }
    }
}

/// A rating as a client sees it.
#[derive(Debug)]
pub struct RatingDto {
    pub id: i32,
    pub attraction_id: i32,
    pub at: Timestamp,
    pub rate: Decimal,
}

impl RatingDto {
    /// `self` shows `a_rating`.
    pub open spec fn shows(self, a_rating: AttractionRating) -> bool {
        &&& self.id == a_rating.id
        &&& self.attraction_id == a_rating.attraction_id
        &&& self.at == a_rating.at
        &&& self.rate@ == a_rating.rate@
    }

    pub fn from_entity(a_rating: &AttractionRating) -> (r: Self)
        ensures
            r.shows(*a_rating),
    {
        RatingDto {
            id: a_rating.get_id(),
            attraction_id: a_rating.get_attraction_id(),
            at: a_rating.get_at(),
            rate: a_rating.get_rate(),
        }
    }
}

/// All attractions as clients see them, in the same order.
pub fn list(attractions: &Vec<Attraction>) -> (dtos: Vec<AttractionDto>)
    ensures
        dtos.len() == attractions.len(),
        forall|i: int| 0 <= i < dtos.len() ==> (#[trigger] dtos[i]).shows_entity(attractions[i]),
{
    let mut dtos: Vec<AttractionDto> = Vec::new();
    let mut i: usize = 0;
    while i < attractions.len()
        invariant
            i <= attractions.len(),
            dtos.len() == i,
            forall|j: int| 0 <= j < i ==> (#[trigger] dtos[j]).shows_entity(attractions[j]),
        decreases attractions.len() - i,
    {
        dtos.push(AttractionDto::from_entity(&attractions[i]));
        i += 1;
    }
    dtos
}

/// The attraction `id` as a client sees it, or the error that says it was
/// not found.
pub fn get_attraction(id: i32, found: Option<FullAttraction>) -> (r: Result<AttractionDto, Error>)
    ensures
        match found {
            Some(an_attraction) => r matches Ok(dto) && dto.shows_full(an_attraction),
            None => r == Err::<AttractionDto, Error>(Error::AttractionNotFound { id }),
        },
{
    match found {
        Some(an_attraction) => Ok(AttractionDto::from_full(&an_attraction)),
        None => Err(Error::AttractionNotFound { id }),
    }
}

/// The ratings of the attraction `id` as a client sees them, in the same
/// order, or the error that says the attraction was not found.
pub fn rating(id: i32, found: Option<Vec<AttractionRating>>) -> (r: Result<Vec<RatingDto>, Error>)
    ensures
        match found {
            Some(ratings) => r matches Ok(dtos) && dtos.len() == ratings.len() && forall|i: int|
                0 <= i < dtos.len() ==> (#[trigger] dtos[i]).shows(ratings[i]),
            None => r == Err::<Vec<RatingDto>, Error>(Error::AttractionNotFound { id }),
        },
{
    match found {
        Some(ratings) => {
            let mut dtos: Vec<RatingDto> = Vec::new();
            let mut i: usize = 0;
            while i < ratings.len()
                invariant
                    i <= ratings.len(),
                    dtos.len() == i,
                    forall|j: int| 0 <= j < i ==> (#[trigger] dtos[j]).shows(ratings[j]),
                decreases ratings.len() - i,
            {
                dtos.push(RatingDto::from_entity(&ratings[i]));
                i += 1;
            }
            Ok(dtos)
        },
        None => Err(Error::AttractionNotFound { id }),
    }
}

} // verus!
