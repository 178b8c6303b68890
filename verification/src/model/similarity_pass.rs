//! One pass over all ordered pairs of attractions, the pair of an attraction
//! with itself included: each pair is scored and its similarity stored.

use crate::errors::EngineError;
use crate::model::attraction_repository::EntityId;
use crate::model::exchange::{
    request_view, Reply, Request, RequestView, SimilarityBetweenAttraction, SimilarityView,
};
use crate::model::similarity_generator::{AttractionInfo, Similarity};
use crate::time::Timestamp;
use vstd::arithmetic::div_mod::lemma_fundamental_div_mod_converse;
use vstd::prelude::*;

verus! {

/// Where a pass stands.
#[derive(Clone, Copy, Debug, PartialEq, Eq, Structural)]
pub enum SimilarityStage {
    /// Waiting for the identifiers of the attractions.
    ListingAttractions,
    /// Waiting for the profile of the first attraction of the pair at hand.
    FetchingFirst,
    /// Waiting for the profile of the second attraction of the pair at hand.
    FetchingSecond,
    /// Waiting for the distance between the two.
    Measuring,
    /// Waiting for the similarity of the pair at hand to be stored.
    Saving,
    /// Every pair was attempted.
    Finished,
    /// The attractions could not be listed.
    Failed,
}

/// The mathematical content of a [`SimilarityPass`].
#[verifier::ext_equal]
pub struct SimilarityPassView {
    pub stage: SimilarityStage,
    /// The attractions, once they are known.
    pub ids: Seq<EntityId>,
    /// The place of the first attraction of the pair at hand.
    pub row: int,
    /// The place of the second attraction of the pair at hand.
    pub column: int,
    /// How many pairs could not be scored or stored.
    pub failures: int,
    /// The profile of the first attraction, once it has come in.
    pub first: Option<AttractionInfo>,
    /// The profile of the second attraction, while the distance is measured.
    pub second: Option<AttractionInfo>,
    /// Why the attractions could not be listed.
    pub error: Option<EngineError>,
}

/// The row to store for a pair: not yet stored, so its `id` is 0.
pub open spec fn similarity_record<S: Similarity>(
    calculator: S,
    from: EntityId,
    to: EntityId,
    first: AttractionInfo,
    second: AttractionInfo,
    distance: Option<i128>,
    now: Timestamp,
) -> SimilarityView {
    SimilarityView {
        id: 0,
        attraction_id: from.id,
        to_attraction_id: to.id,
        similarity: calculator.similarity(first, second, distance),
        at: now,
    }
}

impl SimilarityPassView {
    /// A pair is at hand.
    pub open spec fn working(self) -> bool {
        self.stage == SimilarityStage::FetchingFirst || self.stage
            == SimilarityStage::FetchingSecond || self.stage == SimilarityStage::Measuring
            || self.stage == SimilarityStage::Saving
    }

    /// Nothing more will be asked.
    pub open spec fn ended(self) -> bool {
        self.stage == SimilarityStage::Finished || self.stage == SimilarityStage::Failed
    }

    /// The number of pairs that were dealt with: the pairs come row by row.
    pub open spec fn pairs_done(self) -> int {
        self.row * self.ids.len() + self.column
    }

    /// The pair at hand lies within the attractions, the profiles that a
    /// stage needs are there, no more pairs failed than were dealt with, and
    /// there is an error exactly when the pass failed.
    pub open spec fn valid(self) -> bool {
        &&& 0 <= self.row <= self.ids.len()
        &&& 0 <= self.column <= self.ids.len()
        &&& 0 <= self.failures <= self.pairs_done()
        &&& self.working() ==> self.row < self.ids.len() && self.column < self.ids.len()
        &&& !self.working() ==> self.column == 0
        &&& self.stage == SimilarityStage::ListingAttractions ==> self.row == 0
        &&& self.stage == SimilarityStage::Finished ==> self.row == self.ids.len()
        &&& (self.stage == SimilarityStage::FetchingSecond || self.stage
            == SimilarityStage::Measuring) <==> self.first is Some
        &&& self.stage == SimilarityStage::Measuring <==> self.second is Some
        &&& self.stage == SimilarityStage::Failed <==> self.error is Some
    }

    /// The state in which a pass begins.
    pub open spec fn begun() -> SimilarityPassView {
        SimilarityPassView {
            stage: SimilarityStage::ListingAttractions,
            ids: Seq::empty(),
            row: 0,
            column: 0,
            failures: 0,
            first: None,
            second: None,
            error: None,
        }
    }

    /// The first attraction of the pair at hand.
    pub open spec fn from(self) -> EntityId {
        self.ids[self.row]
    }

    /// The second attraction of the pair at hand.
    pub open spec fn to(self) -> EntityId {
        self.ids[self.column]
    }

    /// This state, failed for the given reason.
    pub open spec fn failed(self, error: EngineError) -> SimilarityPassView {
        SimilarityPassView { stage: SimilarityStage::Failed, error: Some(error), ..self }
    }

    /// This state at the pair `(row, column)`, with no profile in hand:
    /// fetching the first profile if there is such a pair, finished
    /// otherwise.
    pub open spec fn turned_to(self, row: int, column: int) -> SimilarityPassView {
        SimilarityPassView {
            stage: if row < self.ids.len() {
                SimilarityStage::FetchingFirst
            } else {
                SimilarityStage::Finished
            },
            row,
            column,
            first: None,
            second: None,
            ..self
        }
    }

    /// This state after the pair at hand was dealt with, with or without
    /// success: the next pair of the row is at hand, or the first of the next
    /// row.
    pub open spec fn moved_on(self, failed: bool) -> SimilarityPassView {
        let counted = SimilarityPassView {
            failures: if failed {
                self.failures + 1
            } else {
                self.failures
            },
            ..self
        };
        if self.column + 1 < self.ids.len() {
            counted.turned_to(self.row, self.column + 1)
        } else {
            counted.turned_to(self.row + 1, 0)
        }
    }

    /// This state waiting for the similarity of the pair at hand to be
    /// stored.
    pub open spec fn saving(self) -> SimilarityPassView {
        SimilarityPassView { stage: SimilarityStage::Saving, first: None, second: None, ..self }
    }

    /// The state that follows this one when `reply` comes in.
    ///
    /// A failure to list the attractions ends the pass. A failure to fetch a
    /// profile or to store the similarity of one pair is counted, and the next
    /// pair is taken up. A reply that does not answer what was asked counts as
    /// a failure of what was asked. The distance is asked for only where both
    /// locations are known.
    pub open spec fn after(self, reply: Reply) -> SimilarityPassView {
        match self.stage {
            SimilarityStage::ListingAttractions => match reply {
                Reply::AttractionsIds(Ok(ids)) => SimilarityPassView { ids: ids@, ..self }.turned_to(
                    0,
                    0,
                ),
                Reply::AttractionsIds(Err(message)) => self.failed(
                    EngineError::StoreUnavailable(message),
                ),
                _ => self.failed(EngineError::UnexpectedReply),
            },
            SimilarityStage::FetchingFirst => match reply {
                Reply::Info(Ok(info)) => SimilarityPassView {
                    stage: SimilarityStage::FetchingSecond,
                    first: Some(info),
                    ..self
                },
                _ => self.moved_on(true),
            },
            SimilarityStage::FetchingSecond => match reply {
                Reply::Info(Ok(info)) => if self.first->0.unknown_location()
                    || info.unknown_location() {
                    self.saving()
                } else {
                    SimilarityPassView {
                        stage: SimilarityStage::Measuring,
                        second: Some(info),
                        ..self
                    }
                },
                _ => self.moved_on(true),
            },
            SimilarityStage::Measuring => match reply {
                Reply::Distance(_) => self.saving(),
                _ => self.moved_on(true),
            },
            SimilarityStage::Saving => match reply {
                Reply::Saved(Ok(_)) => self.moved_on(false),
                _ => self.moved_on(true),
            },
            SimilarityStage::Finished => self,
            SimilarityStage::Failed => self,
        }
    }

    /// What is asked next when `reply` comes in at the instant `now`: the
    /// profile of the attraction that is due, the distance between two known
    /// locations, or the storing of the similarity that `calculator` gives to
    /// the pair at hand. Nothing once the pass has ended.
    pub open spec fn asked<S: Similarity>(
        self,
        reply: Reply,
        now: Timestamp,
        calculator: S,
    ) -> Option<RequestView> {
        let next = self.after(reply);
        if self.ended() {
            None
        } else {
            match next.stage {
                SimilarityStage::ListingAttractions => None,
                SimilarityStage::FetchingFirst => Some(
                    RequestView::GetInfo { attraction_id: next.from().id },
                ),
                SimilarityStage::FetchingSecond => Some(
                    RequestView::GetInfo { attraction_id: next.to().id },
                ),
                SimilarityStage::Measuring => Some(
                    RequestView::MeasureDistance {
                        from_latitude: next.first->0.latitude->0@,
                        from_longitude: next.first->0.longitude->0@,
                        to_latitude: next.second->0.latitude->0@,
                        to_longitude: next.second->0.longitude->0@,
                    },
                ),
                SimilarityStage::Saving => match reply {
                    Reply::Info(Ok(info)) => Some(
                        RequestView::SaveSimilarity {
                            similarity: similarity_record(
                                calculator,
                                self.from(),
                                self.to(),
                                self.first->0,
                                info,
                                None,
                                now,
                            ),
                        },
                    ),
                    Reply::Distance(distance) => Some(
                        RequestView::SaveSimilarity {
                            similarity: similarity_record(
                                calculator,
                                self.from(),
                                self.to(),
                                self.first->0,
                                self.second->0,
                                distance,
                                now,
                            ),
                        },
                    ),
                    _ => None,
                },
                SimilarityStage::Finished => None,
                SimilarityStage::Failed => None,
            }
        }
    }

    /// The number of replies that are still needed at most: four for each
    /// pair that is left, less those that the pair at hand has had.
    pub open spec fn remaining(self) -> int {
        let left = 4 * (self.ids.len() * self.ids.len() - self.pairs_done());
        match self.stage {
            SimilarityStage::FetchingFirst => left,
            SimilarityStage::FetchingSecond => left - 1,
            SimilarityStage::Measuring => left - 2,
            SimilarityStage::Saving => left - 3,
            _ => 0,
        }
    }

    /// How the pass ended, once it has: well when every pair was attempted,
    /// whatever became of each; with the error when the attractions could not
    /// be listed.
    pub open spec fn outcome(self) -> Option<Result<(), EngineError>> {
        match self.stage {
            SimilarityStage::Finished => Some(Ok(())),
            SimilarityStage::Failed => Some(Err(self.error->0)),
            _ => None,
        }
    }
}

/// With one more pair done in a row, or a row done, one more pair is done.
pub proof fn lemma_moved_on_counts_one(state: SimilarityPassView, failed: bool)
    requires
        state.valid(),
        state.working(),
    ensures
        state.moved_on(failed).pairs_done() == state.pairs_done() + 1,
        state.moved_on(failed).valid(),
        state.moved_on(failed).ids == state.ids,
        state.moved_on(failed).stage == SimilarityStage::Finished <==> state.pairs_done() + 1
            == state.ids.len() * state.ids.len(),
{
    let n = state.ids.len() as int;
    let row = state.row;
    let column = state.column;
    assert((row + 1) * n == row * n + n) by (nonlinear_arith);
    if column + 1 < n {
        assert(row * n + column + 1 < n * n) by (nonlinear_arith)
            requires
                0 <= row < n,
                0 <= column,
                column + 1 < n,
        ;
    } else {
        if row + 1 < n {
            assert((row + 1) * n < n * n) by (nonlinear_arith)
                requires
                    0 <= row,
                    row + 1 < n,
            ;
        }
    }
}

/// The pairs come in the order of the full matrix, row by row: the pair at
/// hand, numbered by the pairs done before it, is the attraction at the
/// quotient by the number of attractions with the attraction at the
/// remainder. Every ordered pair has one number, the pair of an attraction
/// with itself included.
pub proof fn lemma_pair_at_hand(state: SimilarityPassView)
    requires
        state.valid(),
        state.working(),
    ensures
        0 <= state.pairs_done() < state.ids.len() * state.ids.len(),
        state.from() == state.ids[state.pairs_done() / (state.ids.len() as int)],
        state.to() == state.ids[state.pairs_done() % (state.ids.len() as int)],
{
    let n = state.ids.len() as int;
    lemma_fundamental_div_mod_converse(state.pairs_done(), n, state.row, state.column);
    assert(state.row * n + state.column < n * n) by (nonlinear_arith)
        requires
            0 <= state.row < n,
            0 <= state.column < n,
    ;
    assert(0 <= state.row * n) by (nonlinear_arith)
        requires
            0 <= state.row,
            0 <= n,
    ;
}

/// Every state that is reached is valid.
pub proof fn lemma_after_is_valid(state: SimilarityPassView, reply: Reply)
    requires
        state.valid(),
    ensures
        state.after(reply).valid(),
{
    if state.working() {
        lemma_moved_on_counts_one(state, true);
        lemma_moved_on_counts_one(state, false);
    }
    if state.stage == SimilarityStage::ListingAttractions {
        assert(state.row * state.ids.len() == 0) by (nonlinear_arith)
            requires
                state.row == 0,
        ;
        assert(state.after(reply).row * state.after(reply).ids.len() == 0) by (nonlinear_arith)
            requires
                state.after(reply).row == 0,
        ;
    }
}

/// One pair's failure does not end the pass: while a pair is at hand, no
/// reply makes the pass fail, and the pairs are taken up one after the other,
/// row by row, none left out.
pub proof fn lemma_pair_failure_is_isolated(state: SimilarityPassView, reply: Reply)
    requires
        state.valid(),
        state.working(),
    ensures
        state.after(reply).stage != SimilarityStage::Failed,
        state.after(reply).ids == state.ids,
        state.after(reply).pairs_done() == state.pairs_done() || state.after(reply).pairs_done()
            == state.pairs_done() + 1,
        state.after(reply).stage == SimilarityStage::Finished ==> state.pairs_done() + 1
            == state.ids.len() * state.ids.len(),
{
    lemma_moved_on_counts_one(state, true);
    lemma_moved_on_counts_one(state, false);
}

/// While a pair is at hand every reply brings the end of the pass nearer.
pub proof fn lemma_pass_comes_to_an_end(state: SimilarityPassView, reply: Reply)
    requires
        state.valid(),
        state.working(),
    ensures
        0 <= state.after(reply).remaining() < state.remaining(),
{
    lemma_moved_on_counts_one(state, true);
    lemma_moved_on_counts_one(state, false);
    lemma_pair_at_hand(state);
    if state.after(reply).working() {
        lemma_after_is_valid(state, reply);
        lemma_pair_at_hand(state.after(reply));
    }
}

/// A pass fails only where the attractions cannot be listed.
pub proof fn lemma_how_pass_fails(state: SimilarityPassView, reply: Reply)
    requires
        state.valid(),
        state.after(reply).stage == SimilarityStage::Failed,
    ensures
        state.stage == SimilarityStage::Failed || (state.stage
            == SimilarityStage::ListingAttractions && !(reply matches Reply::AttractionsIds(
            Ok(_),
        ))),
{
    if state.working() {
        lemma_pair_failure_is_isolated(state, reply);
    }
}

/// The request for the distance between two attractions, where both
/// locations are known.
pub fn distance_request(first: &AttractionInfo, second: &AttractionInfo) -> (r: Option<Request>)
    ensures
        r is None <==> first.unknown_location() || second.unknown_location(),
        r matches Some(request) ==> request@ == (RequestView::MeasureDistance {
            from_latitude: first.latitude->0@,
            from_longitude: first.longitude->0@,
            to_latitude: second.latitude->0@,
            to_longitude: second.longitude->0@,
        }),
{
    match (&first.latitude, &first.longitude, &second.latitude, &second.longitude) {
        (Some(from_latitude), Some(from_longitude), Some(to_latitude), Some(to_longitude)) => Some(
            Request::MeasureDistance {
                from_latitude: from_latitude.clone(),
                from_longitude: from_longitude.clone(),
                to_latitude: to_latitude.clone(),
                to_longitude: to_longitude.clone(),
            },
        ),
        _ => None,
    }
}

/// The row to store for a pair, as `calculator` scores it.
pub fn record_similarity<S: Similarity>(
    calculator: &S,
    from: EntityId,
    to: EntityId,
    first: &AttractionInfo,
    second: &AttractionInfo,
    distance: Option<i128>,
    now: Timestamp,
) -> (r: SimilarityBetweenAttraction)
    ensures
        r@ == similarity_record(*calculator, from, to, *first, *second, distance, now),
{
    SimilarityBetweenAttraction {
        id: 0,
        attraction_id: from.id,
        to_attraction_id: to.id,
        similarity: calculator.similarity_between(first, second, distance),
        at: now,
    }
}

/// A pass over all ordered pairs of attractions: which pair is at hand, and
/// how far its scoring has come.
#[derive(Debug)]
pub struct SimilarityPass {
    stage: SimilarityStage,
    ids: Vec<EntityId>,
    row: usize,
    column: usize,
    failures: u128,
    first: Option<AttractionInfo>,
    second: Option<AttractionInfo>,
    error: Option<EngineError>,
}

impl View for SimilarityPass {
    type V = SimilarityPassView;

    closed spec fn view(&self) -> SimilarityPassView {
        SimilarityPassView {
            stage: self.stage,
            ids: self.ids@,
            row: self.row as int,
            column: self.column as int,
            failures: self.failures as int,
            first: self.first,
            second: self.second,
            error: self.error,
        }
    }
}

impl SimilarityPass {
    #[verifier::type_invariant]
    closed spec fn well_formed(&self) -> bool {
        self@.valid()
    }

    /// Begins a pass, and asks for the identifiers of the attractions.
    pub fn begin() -> (r: (SimilarityPass, Request))
        ensures
            r.0@ == SimilarityPassView::begun(),
            r.0@.valid(),
            r.1@ == RequestView::AllAttractionsIds,
    {
        let ids: Vec<EntityId> = Vec::new();
        assert(0 * ids@.len() == 0);
        let state = SimilarityPass {
            stage: SimilarityStage::ListingAttractions,
            ids,
            row: 0,
            column: 0,
            failures: 0,
            first: None,
            second: None,
            error: None,
        };
        (state, Request::AllAttractionsIds)
    }

    /// The state at the pair `(row, column)`, and the request for the profile
    /// of its first attraction, if there is such a pair.
    fn turn_to(ids: Vec<EntityId>, row: usize, column: usize, failures: u128) -> (r: (
        SimilarityPass,
        Option<Request>,
    ))
        requires
            row <= ids.len(),
            row < ids.len() ==> column < ids.len(),
            row == ids.len() ==> column == 0,
            failures <= row * ids.len() + column,
        ensures
            r.0@ == (SimilarityPassView {
                stage: SimilarityStage::Finished,
                ids: ids@,
                row: row as int,
                column: column as int,
                failures: failures as int,
                first: None,
                second: None,
                error: None,
            }).turned_to(row as int, column as int),
            r.0@.valid(),
            request_view(r.1) == (if row < ids.len() {
                Some(RequestView::GetInfo { attraction_id: ids@[row as int].id })
            } else {
                None
            }),
    {
        if row < ids.len() {
            let from = ids[row];
            (
                SimilarityPass {
                    stage: SimilarityStage::FetchingFirst,
                    ids,
                    row,
                    column,
                    failures,
                    first: None,
                    second: None,
                    error: None,
                },
                Some(Request::GetInfo { attraction_id: from.id }),
            )
        } else {
            (
                SimilarityPass {
                    stage: SimilarityStage::Finished,
                    ids,
                    row,
                    column,
                    failures,
                    first: None,
                    second: None,
                    error: None,
                },
                None,
            )
        }
    }

    /// The state after the pair `(row, column)` was dealt with, and the request
    /// for the first profile of the next pair, if there is one.
    fn move_on(ids: Vec<EntityId>, row: usize, column: usize, failures: u128, failed: bool) -> (r:
        (SimilarityPass, Option<Request>))
        requires
            row < ids.len(),
            column < ids.len(),
            failures <= row * ids.len() + column,
        ensures
            r.0@ == (SimilarityPassView {
                stage: SimilarityStage::Saving,
                ids: ids@,
                row: row as int,
                column: column as int,
                failures: failures as int,
                first: None,
                second: None,
                error: None,
            }).moved_on(failed),
            r.0@.valid(),
            request_view(r.1) == (if r.0@.stage == SimilarityStage::FetchingFirst {
                Some(RequestView::GetInfo { attraction_id: r.0@.from().id })
            } else {
                None
            }),
    {
        let ghost before = SimilarityPassView {
            stage: SimilarityStage::Saving,
            ids: ids@,
            row: row as int,
            column: column as int,
            failures: failures as int,
            first: None,
            second: None,
            error: None,
        };
        proof {
            lemma_moved_on_counts_one(before, failed);
            let n = ids.len() as int;
            assert(row * n + column < n * n) by (nonlinear_arith)
                requires
                    0 <= row < n,
                    0 <= column < n,
            ;
            assert(n * n <= 0xffff_ffff_ffff_ffff * 0xffff_ffff_ffff_ffff) by (nonlinear_arith)
                requires
                    0 <= n <= 0xffff_ffff_ffff_ffff,
            ;
        }
        let failures = if failed {
            failures + 1
        } else {
            failures
        };
        if column + 1 < ids.len() {
            SimilarityPass::turn_to(ids, row, column + 1, failures)
        } else {
            SimilarityPass::turn_to(ids, row + 1, 0, failures)
        }
    }

    /// Takes the reply to what was asked last, and says what to ask next, if
    /// anything. `now` is the instant that a similarity to be stored is
    /// stamped with, and `calculator` scores the pairs.
    pub fn advance<S: Similarity>(self, reply: Reply, now: Timestamp, calculator: &S) -> (r: (
        SimilarityPass,
        Option<Request>,
    ))
        ensures
            r.0@ == self@.after(reply),
            r.0@.valid(),
            request_view(r.1) == self@.asked(reply, now, *calculator),
    {
        proof {
            use_type_invariant(&self);
        }
        let SimilarityPass { stage, ids, row, column, failures, first, second, error } = self;
        match stage {
            SimilarityStage::ListingAttractions => match reply {
                Reply::AttractionsIds(Ok(listed)) => {
                    assert(0 * listed@.len() == 0);
                    assert(row * ids@.len() == 0) by (nonlinear_arith)
                        requires
                            row == 0,
                    ;
                    SimilarityPass::turn_to(listed, 0, 0, 0)
                },
                Reply::AttractionsIds(Err(message)) => (
                    SimilarityPass {
                        stage: SimilarityStage::Failed,
                        ids,
                        row,
                        column,
                        failures,
                        first,
                        second,
                        error: Some(EngineError::StoreUnavailable(message)),
                    },
                    None,
                ),
                _ => (
                    SimilarityPass {
                        stage: SimilarityStage::Failed,
                        ids,
                        row,
                        column,
                        failures,
                        first,
                        second,
                        error: Some(EngineError::UnexpectedReply),
                    },
                    None,
                ),
            },
            SimilarityStage::FetchingFirst => {
                assert(column < ids.len());
                match reply {
                    Reply::Info(Ok(info)) => {
                        let to = ids[column];
                        (
                            SimilarityPass {
                                stage: SimilarityStage::FetchingSecond,
                                ids,
                                row,
                                column,
                                failures,
                                first: Some(info),
                                second,
                                error,
                            },
                            Some(Request::GetInfo { attraction_id: to.id }),
                        )
                    },
                    _ => SimilarityPass::move_on(ids, row, column, failures, true),
                }
            },
            SimilarityStage::FetchingSecond => {
                assert(row < ids.len() && column < ids.len());
                match (reply, first) {
                    (Reply::Info(Ok(info)), Some(first_info)) => {
                        match distance_request(&first_info, &info) {
                            Some(request) => (
                                SimilarityPass {
                                    stage: SimilarityStage::Measuring,
                                    ids,
                                    row,
                                    column,
                                    failures,
                                    first: Some(first_info),
                                    second: Some(info),
                                    error,
                                },
                                Some(request),
                            ),
                            None => {
                                let similarity = record_similarity(
                                    calculator,
                                    ids[row],
                                    ids[column],
                                    &first_info,
                                    &info,
                                    None,
                                    now,
                                );
                                (
                                    SimilarityPass {
                                        stage: SimilarityStage::Saving,
                                        ids,
                                        row,
                                        column,
                                        failures,
                                        first: None,
                                        second: None,
                                        error,
                                    },
                                    Some(Request::SaveSimilarity { similarity }),
                                )
                            },
                        }
                    },
                    _ => SimilarityPass::move_on(ids, row, column, failures, true),
                }
            },
            SimilarityStage::Measuring => {
                assert(row < ids.len() && column < ids.len());
                match (reply, first, second) {
                    (Reply::Distance(distance), Some(first_info), Some(second_info)) => {
                        let similarity = record_similarity(
                            calculator,
                            ids[row],
                            ids[column],
                            &first_info,
                            &second_info,
                            distance,
                            now,
                        );
                        (
                            SimilarityPass {
                                stage: SimilarityStage::Saving,
                                ids,
                                row,
                                column,
                                failures,
                                first: None,
                                second: None,
                                error,
                            },
                            Some(Request::SaveSimilarity { similarity }),
                        )
                    },
                    _ => SimilarityPass::move_on(ids, row, column, failures, true),
                }
            },
            SimilarityStage::Saving => {
                assert(row < ids.len() && column < ids.len());
                match reply {
                    Reply::Saved(Ok(_)) => SimilarityPass::move_on(ids, row, column, failures, false),
                    _ => SimilarityPass::move_on(ids, row, column, failures, true),
                }
            },
            SimilarityStage::Finished => (
                SimilarityPass { stage, ids, row, column, failures, first, second, error },
                None,
            ),
            SimilarityStage::Failed => (
                SimilarityPass { stage, ids, row, column, failures, first, second, error },
                None,
            ),
        }
    }

    /// How the pass ended, once it has.
    pub fn outcome(&self) -> (r: Option<Result<(), EngineError>>)
        ensures
            r == self@.outcome(),
    {
        proof {
            use_type_invariant(self);
        }
        match self.stage {
            SimilarityStage::Finished => Some(Ok(())),
            SimilarityStage::Failed => match &self.error {
                Some(e) => Some(Err(e.clone())),
                None => None,
            },
            _ => None,
        }
    }

    /// Where the pass stands.
    pub fn stage(&self) -> (r: SimilarityStage)
        ensures
            r == self@.stage,
    {
        self.stage
    }

    /// How many pairs could not be scored or stored.
    pub fn failures(&self) -> (r: u128)
        ensures
            r == self@.failures,
    {
        self.failures
    }
}

} // verus!
