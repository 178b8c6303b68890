//! A full run of the engine: every attraction is reconciled, then every pair
//! of attractions is scored.

use crate::errors::EngineError;
use crate::model::attraction_repository::EntityId;
use crate::model::attraction::AttractionRatingAggregate;
use crate::model::attraction_similarity::{
    AttractionSimilarity, Reconciliation, ReconciliationStage, ReconciliationView,
};
use crate::model::exchange::{request_view, Reply, Request, RequestView};
use crate::model::similarity_generator::Similarity;
use crate::model::similarity_pass::{SimilarityPass, SimilarityPassView, SimilarityStage};
use crate::time::Timestamp;
use vstd::prelude::*;

verus! {

/// Where a run stands.
#[derive(Clone, Copy, Debug, PartialEq, Eq, Structural)]
pub enum RunStage {
    /// Waiting for the identifiers of the attractions to reconcile.
    ListingAttractions,
    /// Reconciling the attraction at hand.
    Reconciling,
    /// Scoring all pairs.
    GeneratingSimilarity,
    /// Every attraction and every pair was attempted.
    Finished,
    /// The attractions could not be listed.
    Failed,
}

/// The mathematical content of a [`SimilarityRun`].
#[verifier::ext_equal]
pub struct SimilarityRunView {
    pub stage: RunStage,
    /// The attractions to reconcile, once they are known.
    pub ids: Seq<EntityId>,
    /// How many attractions were dealt with.
    pub position: int,
    /// How many of these could not be reconciled.
    pub failures: int,
    /// The reconciliation of the attraction at hand.
    pub reconciliation: Option<ReconciliationView>,
    /// The pass over all pairs, once it has begun.
    pub pass: Option<SimilarityPassView>,
    /// Why the attractions could not be listed.
    pub error: Option<EngineError>,
}

impl SimilarityRunView {
    /// Nothing more will be asked.
    pub open spec fn ended(self) -> bool {
        self.stage == RunStage::Finished || self.stage == RunStage::Failed
    }

    /// While an attraction is reconciled its reconciliation is under way,
    /// while the pairs are scored the pass is under way, no more attractions
    /// failed than were dealt with, and there is an error exactly when the run
    /// failed.
    pub open spec fn valid(self) -> bool {
        &&& 0 <= self.failures <= self.position <= self.ids.len()
        &&& self.stage == RunStage::ListingAttractions ==> self.position == 0
        &&& self.stage == RunStage::Reconciling ==> self.position < self.ids.len()
        &&& self.stage == RunStage::Reconciling <==> self.reconciliation is Some
        &&& self.reconciliation matches Some(inner) ==> inner.valid() && !inner.ended()
        &&& self.stage == RunStage::GeneratingSimilarity <==> self.pass is Some
        &&& self.pass matches Some(inner) ==> inner.valid() && !inner.ended()
        &&& self.stage == RunStage::Failed <==> self.error is Some
    }

    /// The state in which a run begins.
    pub open spec fn begun() -> SimilarityRunView {
        SimilarityRunView {
            stage: RunStage::ListingAttractions,
            ids: Seq::empty(),
            position: 0,
            failures: 0,
            reconciliation: None,
            pass: None,
            error: None,
        }
    }

    /// This state, failed for the given reason.
    pub open spec fn failed(self, error: EngineError) -> SimilarityRunView {
        SimilarityRunView {
            stage: RunStage::Failed,
            reconciliation: None,
            pass: None,
            error: Some(error),
            ..self
        }
    }

    /// This state at `position`: beginning to reconcile that attraction if
    /// there is one, beginning the pass over all pairs otherwise.
    pub open spec fn turned_to(self, position: int) -> SimilarityRunView {
        if position < self.ids.len() {
            SimilarityRunView {
                stage: RunStage::Reconciling,
                position,
                reconciliation: Some(ReconciliationView::begun(self.ids[position].id)),
                pass: None,
                ..self
            }
        } else {
            SimilarityRunView {
                stage: RunStage::GeneratingSimilarity,
                position,
                reconciliation: None,
                pass: Some(SimilarityPassView::begun()),
                ..self
            }
        }
    }

    /// What is asked when the run turns to `position`: the buckets in which
    /// that attraction has ratings, or the attractions whose pairs are to be
    /// scored.
    pub open spec fn asked_at(self, position: int) -> RequestView {
        if position < self.ids.len() {
            RequestView::GroupRatingsByDate { attraction_id: self.ids[position].id }
        } else {
            RequestView::AllAttractionsIds
        }
    }

    /// The state that follows this one when `reply` comes in.
    ///
    /// While an attraction is reconciled the reply goes to its
    /// reconciliation; when that has ended, well or not, the next attraction
    /// is taken up, and after the last the pass over all pairs. A failure to
    /// list the attractions, before the reconciling or before the scoring,
    /// ends the run.
    pub open spec fn after(self, reply: Reply) -> SimilarityRunView {
        match self.stage {
            RunStage::ListingAttractions => match reply {
                Reply::AttractionsIds(Ok(ids)) => SimilarityRunView { ids: ids@, ..self }.turned_to(
                    0,
                ),
                Reply::AttractionsIds(Err(message)) => self.failed(
                    EngineError::StoreUnavailable(message),
                ),
                _ => self.failed(EngineError::UnexpectedReply),
            },
            RunStage::Reconciling => {
                let inner = self.reconciliation->0.after(reply);
                match inner.stage {
                    ReconciliationStage::Finished => self.turned_to(self.position + 1),
                    ReconciliationStage::Failed => SimilarityRunView {
                        failures: self.failures + 1,
                        ..self
                    }.turned_to(self.position + 1),
                    _ => SimilarityRunView { reconciliation: Some(inner), ..self },
                }
            },
            RunStage::GeneratingSimilarity => {
                let inner = self.pass->0.after(reply);
                match inner.stage {
                    SimilarityStage::Finished => SimilarityRunView {
                        stage: RunStage::Finished,
                        pass: None,
                        ..self
                    },
                    SimilarityStage::Failed => self.failed(inner.error->0),
                    _ => SimilarityRunView { pass: Some(inner), ..self },
                }
            },
            RunStage::Finished => self,
            RunStage::Failed => self,
        }
    }

    /// What is asked next when `reply` comes in at the instant `now`, with
    /// `calculator` to score the pairs. Nothing once the run has ended.
    pub open spec fn asked<S: Similarity>(
        self,
        reply: Reply,
        now: Timestamp,
        calculator: S,
    ) -> Option<RequestView> {
        let next = self.after(reply);
        match self.stage {
            RunStage::ListingAttractions => if next.stage == RunStage::Failed {
                None
            } else {
                Some(next.asked_at(0))
            },
            RunStage::Reconciling => if self.reconciliation->0.after(reply).ended() {
                Some(self.asked_at(self.position + 1))
            } else {
                self.reconciliation->0.asked(reply)
            },
            RunStage::GeneratingSimilarity => self.pass->0.asked(reply, now, calculator),
            RunStage::Finished => None,
            RunStage::Failed => None,
        }
    }

    /// How the run ended, once it has: well when every attraction and every
    /// pair was attempted, whatever became of each; with the error when the
    /// attractions could not be listed.
    pub open spec fn outcome(self) -> Option<Result<(), EngineError>> {
        match self.stage {
            RunStage::Finished => Some(Ok(())),
            RunStage::Failed => Some(Err(self.error->0)),
            _ => None,
        }
    }
}

/// Every state that is reached is valid.
pub proof fn lemma_after_is_valid(state: SimilarityRunView, reply: Reply)
    requires
        state.valid(),
    ensures
        state.after(reply).valid(),
{
    if state.stage == RunStage::Reconciling {
        crate::model::attraction_similarity::lemma_after_is_valid(state.reconciliation->0, reply);
    }
    if state.stage == RunStage::GeneratingSimilarity {
        crate::model::similarity_pass::lemma_after_is_valid(state.pass->0, reply);
    }
}

/// One attraction's failure does not end the run: while an attraction is
/// reconciled, no reply makes the run fail, and the attractions are taken up
/// one after the other, none left out.
pub proof fn lemma_attraction_failure_is_isolated(state: SimilarityRunView, reply: Reply)
    requires
        state.valid(),
        state.stage == RunStage::Reconciling,
    ensures
        state.after(reply).stage != RunStage::Failed,
        state.after(reply).ids == state.ids,
        state.after(reply).position == state.position || state.after(reply).position
            == state.position + 1,
        state.after(reply).stage == RunStage::GeneratingSimilarity ==> state.position + 1
            == state.ids.len(),
{
    crate::model::attraction_similarity::lemma_after_is_valid(state.reconciliation->0, reply);
}

/// A run fails only where the attractions cannot be listed: before the
/// reconciling, or before the scoring.
pub proof fn lemma_how_run_fails(state: SimilarityRunView, reply: Reply)
    requires
        state.valid(),
        state.after(reply).stage == RunStage::Failed,
    ensures
        state.stage == RunStage::Failed || !(reply matches Reply::AttractionsIds(Ok(_))),
        state.stage == RunStage::Failed || state.stage == RunStage::ListingAttractions || (
        state.stage == RunStage::GeneratingSimilarity && state.pass->0.stage
            == SimilarityStage::ListingAttractions),
{
    if state.stage == RunStage::Reconciling {
        lemma_attraction_failure_is_isolated(state, reply);
    }
    if state.stage == RunStage::GeneratingSimilarity {
        crate::model::similarity_pass::lemma_how_pass_fails(state.pass->0, reply);
    }
}

/// A run of the engine: which attraction is being reconciled, or how far the
/// scoring of the pairs has come.
#[derive(Debug)]
pub struct SimilarityRun {
    stage: RunStage,
    ids: Vec<EntityId>,
    position: usize,
    failures: usize,
    reconciliation: Option<Reconciliation>,
    pass: Option<SimilarityPass>,
    error: Option<EngineError>,
}

impl View for SimilarityRun {
    type V = SimilarityRunView;

    closed spec fn view(&self) -> SimilarityRunView {
        SimilarityRunView {
            stage: self.stage,
            ids: self.ids@,
            position: self.position as int,
            failures: self.failures as int,
            reconciliation: match self.reconciliation {
                Some(inner) => Some(inner@),
                None => None,
            },
            pass: match self.pass {
                Some(inner) => Some(inner@),
                None => None,
            },
            error: self.error,
        }
    }
}

impl SimilarityRun {
    #[verifier::type_invariant]
    closed spec fn well_formed(&self) -> bool {
        self@.valid()
    }

    /// Begins a run, and asks for the identifiers of the attractions.
    pub fn begin() -> (r: (SimilarityRun, Request))
        ensures
            r.0@ == SimilarityRunView::begun(),
            r.0@.valid(),
            r.1@ == RequestView::AllAttractionsIds,
    {
        let state = SimilarityRun {
            stage: RunStage::ListingAttractions,
            ids: Vec::new(),
            position: 0,
            failures: 0,
            reconciliation: None,
            pass: None,
            error: None,
        };
        (state, Request::AllAttractionsIds)
    }

    /// The state at `position`, and what is asked there.
    fn turn_to(ids: Vec<EntityId>, position: usize, failures: usize) -> (r: (
        SimilarityRun,
        Request,
    ))
        requires
            failures <= position <= ids.len(),
        ensures
            r.0@ == (SimilarityRunView {
                stage: RunStage::Finished,
                ids: ids@,
                position: position as int,
                failures: failures as int,
                reconciliation: None,
                pass: None,
                error: None,
            }).turned_to(position as int),
            r.0@.valid(),
            r.1@ == r.0@.asked_at(position as int),
    {
        if position < ids.len() {
            let (reconciliation, request) = Reconciliation::begin(ids[position].id);
            (
                SimilarityRun {
                    stage: RunStage::Reconciling,
                    ids,
                    position,
                    failures,
                    reconciliation: Some(reconciliation),
                    pass: None,
                    error: None,
                },
                request,
            )
        } else {
            let (pass, request) = SimilarityPass::begin();
            (
                SimilarityRun {
                    stage: RunStage::GeneratingSimilarity,
                    ids,
                    position,
                    failures,
                    reconciliation: None,
                    pass: Some(pass),
                    error: None,
                },
                request,
            )
        }
    }

    /// Takes the reply to what was asked last, and says what to ask next, if
    /// anything. `now` is the instant that a similarity to be stored is
    /// stamped with, and `calculator` scores the pairs.
    pub fn advance<S: Similarity>(self, reply: Reply, now: Timestamp, calculator: &S) -> (r: (
        SimilarityRun,
        Option<Request>,
    ))
        ensures
            r.0@ == self@.after(reply),
            r.0@.valid(),
            request_view(r.1) == self@.asked(reply, now, *calculator),
    {
        proof {
            use_type_invariant(&self);
        }
        let SimilarityRun { stage, ids, position, failures, reconciliation, pass, error } = self;
        match stage {
            RunStage::ListingAttractions => match reply {
                Reply::AttractionsIds(Ok(listed)) => {
                    let (state, request) = SimilarityRun::turn_to(listed, 0, 0);
                    (state, Some(request))
                },
                Reply::AttractionsIds(Err(message)) => (
                    SimilarityRun {
                        stage: RunStage::Failed,
                        ids,
                        position,
                        failures,
                        reconciliation: None,
                        pass: None,
                        error: Some(EngineError::StoreUnavailable(message)),
                    },
                    None,
                ),
                _ => (
                    SimilarityRun {
                        stage: RunStage::Failed,
                        ids,
                        position,
                        failures,
                        reconciliation: None,
                        pass: None,
                        error: Some(EngineError::UnexpectedReply),
                    },
                    None,
                ),
            },
            RunStage::Reconciling => {
                assert(position < ids.len());
                match reconciliation {
                    Some(inner) => {
                        let (next, request) = inner.advance(reply);
                        match next.stage() {
                            ReconciliationStage::Finished => {
                                let (state, request) = SimilarityRun::turn_to(
                                    ids,
                                    position + 1,
                                    failures,
                                );
                                (state, Some(request))
                            },
                            ReconciliationStage::Failed => {
                                let (state, request) = SimilarityRun::turn_to(
                                    ids,
                                    position + 1,
                                    failures + 1,
                                );
                                (state, Some(request))
                            },
                            _ => (
                                SimilarityRun {
                                    stage: RunStage::Reconciling,
                                    ids,
                                    position,
                                    failures,
                                    reconciliation: Some(next),
                                    pass: None,
                                    error: None,
                                },
                                request,
                            ),
                        }
                    },
                    None => {
                        let (state, request) = SimilarityRun::turn_to(ids, position + 1, failures);
                        (state, Some(request))
                    },
                }
            },
            RunStage::GeneratingSimilarity => match pass {
                Some(inner) => {
                    let (next, request) = inner.advance(reply, now, calculator);
                    match next.outcome() {
                        Some(Ok(_)) => (
                            SimilarityRun {
                                stage: RunStage::Finished,
                                ids,
                                position,
                                failures,
                                reconciliation: None,
                                pass: None,
                                error: None,
                            },
                            None,
                        ),
                        Some(Err(e)) => (
                            SimilarityRun {
                                stage: RunStage::Failed,
                                ids,
                                position,
                                failures,
                                reconciliation: None,
                                pass: None,
                                error: Some(e),
                            },
                            None,
                        ),
                        None => (
                            SimilarityRun {
                                stage: RunStage::GeneratingSimilarity,
                                ids,
                                position,
                                failures,
                                reconciliation: None,
                                pass: Some(next),
                                error: None,
                            },
                            request,
                        ),
                    }
                },
                None => (
                    SimilarityRun {
                        stage: RunStage::Finished,
                        ids,
                        position,
                        failures,
                        reconciliation: None,
                        pass: None,
                        error: None,
                    },
                    None,
                ),
            },
            RunStage::Finished => (
                SimilarityRun { stage, ids, position, failures, reconciliation, pass, error },
                None,
            ),
            RunStage::Failed => (
                SimilarityRun { stage, ids, position, failures, reconciliation, pass, error },
                None,
            ),
        }
    }

    /// How the run ended, once it has.
    pub fn outcome(&self) -> (r: Option<Result<(), EngineError>>)
        ensures
            r == self@.outcome(),
    {
        proof {
            use_type_invariant(self);
        }
        match self.stage {
            RunStage::Finished => Some(Ok(())),
            RunStage::Failed => match &self.error {
                Some(e) => Some(Err(e.clone())),
                None => None,
            },
            _ => None,
        }
    }

    /// Where the run stands.
    pub fn stage(&self) -> (r: RunStage)
        ensures
            r == self@.stage,
    {
        self.stage
    }

    /// How many attractions could not be reconciled.
    pub fn failures(&self) -> (r: usize)
        ensures
            r == self@.failures,
    {
        self.failures
    }
}

/// Runs the engine over a repository of attractions and a repository of
/// aggregates and similarities.
pub struct SimilarityControllerImpl<AttractionRepo, SimilarityRepo> {
    attraction_repo: AttractionRepo,
    similarity_repo: SimilarityRepo,
    attraction_similarity: AttractionSimilarity<AttractionRepo>,
}

impl<AttractionRepo: Clone, SimilarityRepo> SimilarityControllerImpl<
    AttractionRepo,
    SimilarityRepo,
> {
    /// The controller's own repository of attractions.
    pub closed spec fn attraction_repository(&self) -> AttractionRepo {
        self.attraction_repo
    }

    /// The repository of aggregates and similarities.
    pub closed spec fn similarity_repository(&self) -> SimilarityRepo {
        self.similarity_repo
    }

    /// The engine, which holds the repository of attractions.
    pub closed spec fn engine(&self) -> AttractionSimilarity<AttractionRepo> {
        self.attraction_similarity
    }

    pub fn new(attraction_repo: AttractionRepo, similarity_repo: SimilarityRepo) -> (r: Self)
        ensures
            r.similarity_repository() == similarity_repo,
            r.engine().repository() == attraction_repo,
            cloned(attraction_repo, r.attraction_repository()),
    {
        let att_repo_clone = attraction_repo.clone();
        SimilarityControllerImpl {
            attraction_repo: att_repo_clone,
            similarity_repo,
            attraction_similarity: AttractionSimilarity::new(attraction_repo),
        }
    }

    /// The controller's own repository of attractions: a clone of the one
    /// that the engine holds.
    pub fn attraction_repo(&self) -> (r: &AttractionRepo)
        ensures
            *r == self.attraction_repository(),
    {
        &self.attraction_repo
    }

    /// The repository of aggregates and similarities.
    pub fn similarity_repo(&self) -> (r: &SimilarityRepo)
        ensures
            *r == self.similarity_repository(),
    {
        &self.similarity_repo
    }

    /// The engine.
    pub fn attraction_similarity(&self) -> (r: &AttractionSimilarity<AttractionRepo>)
        ensures
            *r == self.engine(),
    {
        &self.attraction_similarity
    }

    /// Begins a run: every attraction is reconciled, then every pair is
    /// scored. Asks for the identifiers of the attractions.
    pub fn calculate_similarity_between_attractions(&self) -> (r: (SimilarityRun, Request))
        ensures
            r.0@ == SimilarityRunView::begun(),
            r.0@.valid(),
            r.1@ == RequestView::AllAttractionsIds,
    {
        SimilarityRun::begin()
    }
}

/// The aggregates that the repository gave, if it answered.
pub fn list_rating_aggregate(answer: Result<Vec<AttractionRatingAggregate>, String>) -> (r: Option<
    Vec<AttractionRatingAggregate>,
>)
    ensures
        r == (match answer {
            Ok(aggregates) => Some(aggregates),
            Err(_) => None,
        }),
{
    match answer {
        Ok(aggregates) => Some(aggregates),
        Err(_) => None,
    }
}

} // verus!
