//! What the engine asks of its surroundings, and what it is told.
//!
//! The engine does no input or output. It hands out a [`Request`], and goes
//! on when it is given the [`Reply`].

use crate::decimal::{Decimal, DecimalView};
use crate::model::attraction::{
    AggregateView, AttractionByDate, AttractionRating, AttractionRatingAggregate,
};
use crate::model::attraction_repository::EntityId;
use crate::model::similarity_generator::AttractionInfo;
use crate::time::{Date, Timestamp};
use vstd::prelude::*;

verus! {

/// The similarity of one attraction to another, as computed at some instant.
#[derive(Debug)]
pub struct SimilarityBetweenAttraction {
    pub id: i32,
    pub attraction_id: i32,
    pub to_attraction_id: i32,
    pub similarity: Decimal,
    pub at: Timestamp,
}

/// The mathematical content of a [`SimilarityBetweenAttraction`].
pub struct SimilarityView {
    pub id: i32,
    pub attraction_id: i32,
    pub to_attraction_id: i32,
    pub similarity: DecimalView,
    pub at: Timestamp,
}

impl View for SimilarityBetweenAttraction {
    type V = SimilarityView;

    open spec fn view(&self) -> SimilarityView {
        SimilarityView {
            id: self.id,
            attraction_id: self.attraction_id,
            to_attraction_id: self.to_attraction_id,
            similarity: self.similarity@,
            at: self.at,
        }
    }
}

/// What the engine asks for.
#[derive(Debug)]
pub enum Request {
    /// The identifiers of all attractions, in ascending order.
    AllAttractionsIds,
    /// The buckets in which the attraction has at least one rating.
    GroupRatingsByDate { attraction_id: i32 },
    /// The buckets for which the attraction has an aggregate.
    GroupAggregateByDate { attraction_id: i32 },
    /// The ratings of the attraction on the day, in ascending order of rate.
    SortedRatingsFor { attraction_id: i32, from: Date },
    /// To store the aggregate as a new row.
    SaveAttractionRatingAggregate { aggregate: AttractionRatingAggregate },
    /// Type, location and latest average rating of the attraction.
    GetInfo { attraction_id: i32 },
    /// The distance in whole meters between two points given by latitude and
    /// longitude in decimal degrees.
    MeasureDistance {
        from_latitude: String,
        from_longitude: String,
        to_latitude: String,
        to_longitude: String,
    },
    /// To store the similarity as a new row.
    SaveSimilarity { similarity: SimilarityBetweenAttraction },
}

/// The mathematical content of a [`Request`].
pub enum RequestView {
    AllAttractionsIds,
    GroupRatingsByDate { attraction_id: i32 },
    GroupAggregateByDate { attraction_id: i32 },
    SortedRatingsFor { attraction_id: i32, from: Date },
    SaveAttractionRatingAggregate { aggregate: AggregateView },
    GetInfo { attraction_id: i32 },
    MeasureDistance {
        from_latitude: Seq<char>,
        from_longitude: Seq<char>,
        to_latitude: Seq<char>,
        to_longitude: Seq<char>,
    },
    SaveSimilarity { similarity: SimilarityView },
}

impl View for Request {
    type V = RequestView;

    open spec fn view(&self) -> RequestView {
        match self {
            Request::AllAttractionsIds => RequestView::AllAttractionsIds,
            Request::GroupRatingsByDate { attraction_id } => RequestView::GroupRatingsByDate {
                attraction_id: *attraction_id,
            },
            Request::GroupAggregateByDate { attraction_id } => RequestView::GroupAggregateByDate {
                attraction_id: *attraction_id,
            },
            Request::SortedRatingsFor { attraction_id, from } => RequestView::SortedRatingsFor {
                attraction_id: *attraction_id,
                from: *from,
            },
            Request::SaveAttractionRatingAggregate {
                aggregate,
            } => RequestView::SaveAttractionRatingAggregate { aggregate: aggregate@ },
            Request::GetInfo { attraction_id } => RequestView::GetInfo {
                attraction_id: *attraction_id,
            },
            Request::MeasureDistance {
                from_latitude,
                from_longitude,
                to_latitude,
                to_longitude,
            } => RequestView::MeasureDistance {
                from_latitude: from_latitude@,
                from_longitude: from_longitude@,
                to_latitude: to_latitude@,
                to_longitude: to_longitude@,
            },
            Request::SaveSimilarity { similarity } => RequestView::SaveSimilarity {
                similarity: similarity@,
            },
        }
    }
}

/// The view of a request that may be absent.
pub open spec fn request_view(request: Option<Request>) -> Option<RequestView> {
    match request {
        Some(r) => Some(r@),
        None => None,
    }
}

/// What the engine is told. An `Err` carries the message of the failure.
#[derive(Debug)]
pub enum Reply {
    /// To [`Request::AllAttractionsIds`].
    AttractionsIds(Result<Vec<EntityId>, String>),
    /// To [`Request::GroupRatingsByDate`] and
    /// [`Request::GroupAggregateByDate`].
    ByDate(Result<Vec<AttractionByDate>, String>),
    /// To [`Request::SortedRatingsFor`].
    SortedRatings(Result<Vec<AttractionRating>, String>),
    /// To [`Request::GetInfo`].
    Info(Result<AttractionInfo, String>),
    /// To [`Request::MeasureDistance`]: `None` where a coordinate is no
    /// number or the distance cannot be had.
    Distance(Option<i128>),
    /// To [`Request::SaveAttractionRatingAggregate`] and
    /// [`Request::SaveSimilarity`].
    Saved(Result<EntityId, String>),
}

} // verus!
