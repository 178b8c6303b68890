//! Reconciling ratings into daily aggregates, and comparing every attraction
//! with every other.

use crate::errors::AggregationError;
use crate::model::aggregation::{aggregate_of, can_aggregate, daily_aggregate};
use crate::model::attraction::AttractionByDate;
use crate::model::exchange::{request_view, Reply, Request, RequestView};
use crate::model::similarity_pass::{SimilarityPass, SimilarityPassView};
use std::collections::HashSet;
use vstd::prelude::*;
use vstd::std_specs::hash::*;

verus! {

/// Some element of `buckets` is the same bucket as `bucket`.
pub open spec fn occurs_in(bucket: AttractionByDate, buckets: Seq<AttractionByDate>) -> bool {
    exists|i: int| 0 <= i < buckets.len() && (#[trigger] buckets[i]).same_bucket(bucket)
}

/// The keys of the buckets.
pub open spec fn keys_of(buckets: Seq<AttractionByDate>) -> Set<u64> {
    Set::new(|k: u64| exists|i: int| 0 <= i < buckets.len() && (#[trigger] buckets[i]).key() == k)
}

/// The buckets that have ratings and no aggregate yet: each bucket of
/// `ratings_by_date` that does not occur in `aggregate_by_date`, once, where
/// it first stands.
pub open spec fn missing_buckets(
    ratings_by_date: Seq<AttractionByDate>,
    aggregate_by_date: Seq<AttractionByDate>,
) -> Seq<AttractionByDate>
    decreases ratings_by_date.len(),
{
    if ratings_by_date.len() == 0 {
        Seq::empty()
    } else {
        let earlier = ratings_by_date.drop_last();
        let bucket = ratings_by_date.last();
        let found = missing_buckets(earlier, aggregate_by_date);
        if occurs_in(bucket, aggregate_by_date) || occurs_in(bucket, earlier) {
            found
        } else {
            found.push(bucket)
        }
    }
}

/// A bucket occurs among others exactly when its key is among their keys.
pub proof fn lemma_occurs_by_key(bucket: AttractionByDate, buckets: Seq<AttractionByDate>)
    ensures
        occurs_in(bucket, buckets) <==> keys_of(buckets).contains(bucket.key()),
{
    if occurs_in(bucket, buckets) {
        let i = choose|i: int| 0 <= i < buckets.len() && (#[trigger] buckets[i]).same_bucket(bucket);
        buckets[i].lemma_key_tells_apart(bucket);
    }
    if keys_of(buckets).contains(bucket.key()) {
        let i = choose|i: int| 0 <= i < buckets.len() && (#[trigger] buckets[i]).key() == bucket.key();
        buckets[i].lemma_key_tells_apart(bucket);
    }
}

/// One more bucket adds its key.
pub proof fn lemma_keys_of_push(buckets: Seq<AttractionByDate>, bucket: AttractionByDate)
    ensures
        keys_of(buckets.push(bucket)) == keys_of(buckets).insert(bucket.key()),
{
    let longer = buckets.push(bucket);
    assert forall|k: u64| keys_of(longer).contains(k) <==> keys_of(buckets).insert(
        bucket.key(),
    ).contains(k) by {
        if keys_of(longer).contains(k) {
            let i = choose|i: int| 0 <= i < longer.len() && (#[trigger] longer[i]).key() == k;
            if i < buckets.len() {
                assert(buckets[i].key() == k);
            }
        }
        if keys_of(buckets).contains(k) {
            let i = choose|i: int| 0 <= i < buckets.len() && (#[trigger] buckets[i]).key() == k;
            assert(longer[i].key() == k);
        }
        if k == bucket.key() {
            assert(longer[buckets.len() as int].key() == k);
        }
    }
    assert(keys_of(longer) =~= keys_of(buckets).insert(bucket.key()));
}

/// A bucket is missing exactly when it has ratings and no aggregate.
pub proof fn lemma_missing_membership(
    ratings_by_date: Seq<AttractionByDate>,
    aggregate_by_date: Seq<AttractionByDate>,
    bucket: AttractionByDate,
)
    ensures
        occurs_in(bucket, missing_buckets(ratings_by_date, aggregate_by_date)) <==> occurs_in(
            bucket,
            ratings_by_date,
        ) && !occurs_in(bucket, aggregate_by_date),
    decreases ratings_by_date.len(),
{
    let missing = missing_buckets(ratings_by_date, aggregate_by_date);
    if ratings_by_date.len() > 0 {
        let earlier = ratings_by_date.drop_last();
        let last = ratings_by_date.last();
        let found = missing_buckets(earlier, aggregate_by_date);
        lemma_missing_membership(earlier, aggregate_by_date, bucket);
        lemma_missing_membership(earlier, aggregate_by_date, last);
        if occurs_in(bucket, missing) {
            let i = choose|i: int| 0 <= i < missing.len() && (#[trigger] missing[i]).same_bucket(bucket);
            if i < found.len() {
                assert(found[i].same_bucket(bucket));
                let j = choose|j: int| 0 <= j < earlier.len() && (#[trigger] earlier[j]).same_bucket(bucket);
                assert(ratings_by_date[j].same_bucket(bucket));
            } else {
                assert(ratings_by_date[ratings_by_date.len() - 1].same_bucket(bucket));
                if occurs_in(bucket, aggregate_by_date) {
                    let k = choose|k: int| 0 <= k < aggregate_by_date.len() && (
                    #[trigger] aggregate_by_date[k]).same_bucket(bucket);
                    assert(aggregate_by_date[k].same_bucket(last));
                }
            }
        }
        if occurs_in(bucket, ratings_by_date) && !occurs_in(bucket, aggregate_by_date) {
            let j = choose|j: int| 0 <= j < ratings_by_date.len() && (
            #[trigger] ratings_by_date[j]).same_bucket(bucket);
            if j < earlier.len() {
                assert(earlier[j].same_bucket(bucket));
                let i = choose|i: int| 0 <= i < found.len() && (#[trigger] found[i]).same_bucket(bucket);
                assert(missing[i].same_bucket(bucket));
            } else {
                assert(last.same_bucket(bucket));
                if occurs_in(last, aggregate_by_date) {
                    let k = choose|k: int| 0 <= k < aggregate_by_date.len() && (
                    #[trigger] aggregate_by_date[k]).same_bucket(last);
                    assert(aggregate_by_date[k].same_bucket(bucket));
                }
                if occurs_in(last, earlier) {
                    let k = choose|k: int| 0 <= k < earlier.len() && (#[trigger] earlier[k]).same_bucket(last);
                    assert(earlier[k].same_bucket(bucket));
                    let i = choose|i: int| 0 <= i < found.len() && (#[trigger] found[i]).same_bucket(bucket);
                    assert(missing[i].same_bucket(bucket));
                } else {
                    assert(missing[missing.len() - 1].same_bucket(bucket));
                }
            }
        }
    }
}

/// Each missing bucket is one of the buckets with ratings, as it stands
/// there.
pub proof fn lemma_missing_come_from_ratings(
    ratings_by_date: Seq<AttractionByDate>,
    aggregate_by_date: Seq<AttractionByDate>,
)
    ensures
        forall|i: int|
            0 <= i < missing_buckets(ratings_by_date, aggregate_by_date).len()
                ==> ratings_by_date.contains(
                #[trigger] missing_buckets(ratings_by_date, aggregate_by_date)[i],
            ),
        missing_buckets(ratings_by_date, aggregate_by_date).len() <= ratings_by_date.len(),
    decreases ratings_by_date.len(),
{
    let missing = missing_buckets(ratings_by_date, aggregate_by_date);
    if ratings_by_date.len() > 0 {
        let earlier = ratings_by_date.drop_last();
        let found = missing_buckets(earlier, aggregate_by_date);
        lemma_missing_come_from_ratings(earlier, aggregate_by_date);
        assert forall|i: int| 0 <= i < missing.len() implies ratings_by_date.contains(
            #[trigger] missing[i],
        ) by {
            if i < found.len() {
                assert(earlier.contains(found[i]));
                let j = choose|j: int| 0 <= j < earlier.len() && earlier[j] == found[i];
                assert(ratings_by_date[j] == missing[i]);
            } else {
                assert(ratings_by_date[ratings_by_date.len() - 1] == missing[i]);
            }
        }
    }
}

/// No bucket is missing twice.
pub proof fn lemma_missing_distinct(
    ratings_by_date: Seq<AttractionByDate>,
    aggregate_by_date: Seq<AttractionByDate>,
)
    ensures
        forall|i: int, j: int|
            0 <= i < j < missing_buckets(ratings_by_date, aggregate_by_date).len() ==> !(
            #[trigger] missing_buckets(ratings_by_date, aggregate_by_date)[i]).same_bucket(
                #[trigger] missing_buckets(ratings_by_date, aggregate_by_date)[j],
            ),
    decreases ratings_by_date.len(),
{
    let missing = missing_buckets(ratings_by_date, aggregate_by_date);
    if ratings_by_date.len() > 0 {
        let earlier = ratings_by_date.drop_last();
        let last = ratings_by_date.last();
        let found = missing_buckets(earlier, aggregate_by_date);
        lemma_missing_distinct(earlier, aggregate_by_date);
        assert forall|i: int, j: int| 0 <= i < j < missing.len() implies !(#[trigger] missing[i]).same_bucket(
            #[trigger] missing[j],
        ) by {
            if j >= found.len() {
                // the last bucket was added, so it occurs nowhere before
                if missing[i].same_bucket(last) {
                    assert(found[i].same_bucket(last));
                    lemma_missing_membership(earlier, aggregate_by_date, last);
                }
            }
        }
    }
}

/// Nothing is missing exactly when every bucket with ratings has its
/// aggregate.
pub proof fn lemma_nothing_missing(
    ratings_by_date: Seq<AttractionByDate>,
    aggregate_by_date: Seq<AttractionByDate>,
)
    ensures
        missing_buckets(ratings_by_date, aggregate_by_date).len() == 0 <==> forall|i: int|
            0 <= i < ratings_by_date.len() ==> occurs_in(
                #[trigger] ratings_by_date[i],
                aggregate_by_date,
            ),
{
    let missing = missing_buckets(ratings_by_date, aggregate_by_date);
    if missing.len() == 0 {
        assert forall|i: int| 0 <= i < ratings_by_date.len() implies occurs_in(
            #[trigger] ratings_by_date[i],
            aggregate_by_date,
        ) by {
            let bucket = ratings_by_date[i];
            lemma_missing_membership(ratings_by_date, aggregate_by_date, bucket);
            assert(ratings_by_date[i].same_bucket(bucket));
        }
    } else {
        let bucket = missing[0];
        assert(missing[0].same_bucket(bucket));
        lemma_missing_membership(ratings_by_date, aggregate_by_date, bucket);
        let j = choose|j: int| 0 <= j < ratings_by_date.len() && (
        #[trigger] ratings_by_date[j]).same_bucket(bucket);
        if occurs_in(ratings_by_date[j], aggregate_by_date) {
            let k = choose|k: int| 0 <= k < aggregate_by_date.len() && (
            #[trigger] aggregate_by_date[k]).same_bucket(ratings_by_date[j]);
            assert(aggregate_by_date[k].same_bucket(bucket));
        }
    }
}

/// Reconciling is idempotent: once every missing bucket has got its
/// aggregate, and none was taken away, the same ratings leave nothing
/// missing.
pub proof fn lemma_reconciled_leaves_nothing_missing(
    ratings_by_date: Seq<AttractionByDate>,
    aggregate_before: Seq<AttractionByDate>,
    aggregate_after: Seq<AttractionByDate>,
)
    requires
        forall|i: int|
            0 <= i < aggregate_before.len() ==> occurs_in(
                #[trigger] aggregate_before[i],
                aggregate_after,
            ),
        forall|i: int|
            0 <= i < missing_buckets(ratings_by_date, aggregate_before).len() ==> occurs_in(
                #[trigger] missing_buckets(ratings_by_date, aggregate_before)[i],
                aggregate_after,
            ),
    ensures
        missing_buckets(ratings_by_date, aggregate_after) == Seq::<AttractionByDate>::empty(),
{
    let missing = missing_buckets(ratings_by_date, aggregate_before);
    assert forall|i: int| 0 <= i < ratings_by_date.len() implies occurs_in(
        #[trigger] ratings_by_date[i],
        aggregate_after,
    ) by {
        let bucket = ratings_by_date[i];
        assert(ratings_by_date[i].same_bucket(bucket));
        lemma_missing_membership(ratings_by_date, aggregate_before, bucket);
        if occurs_in(bucket, aggregate_before) {
            let k = choose|k: int| 0 <= k < aggregate_before.len() && (
            #[trigger] aggregate_before[k]).same_bucket(bucket);
            let l = choose|l: int| 0 <= l < aggregate_after.len() && (
            #[trigger] aggregate_after[l]).same_bucket(aggregate_before[k]);
            assert(aggregate_after[l].same_bucket(bucket));
        } else {
            let k = choose|k: int| 0 <= k < missing.len() && (#[trigger] missing[k]).same_bucket(bucket);
            let l = choose|l: int| 0 <= l < aggregate_after.len() && (
            #[trigger] aggregate_after[l]).same_bucket(missing[k]);
            assert(aggregate_after[l].same_bucket(bucket));
        }
    }
    lemma_nothing_missing(ratings_by_date, aggregate_after);
    assert(missing_buckets(ratings_by_date, aggregate_after) =~= Seq::<AttractionByDate>::empty());
}

/// The buckets that have ratings and no aggregate yet.
pub fn missing_aggregates(
    ratings_by_date: &Vec<AttractionByDate>,
    aggregate_by_date: &Vec<AttractionByDate>,
) -> (missing: Vec<AttractionByDate>)
    ensures
        missing@ == missing_buckets(ratings_by_date@, aggregate_by_date@),
{
    broadcast use group_hash_axioms;

    let mut seen: HashSet<u64> = HashSet::new();
    let mut i: usize = 0;
    assert(seen@ =~= keys_of(aggregate_by_date@.take(0)));
    while i < aggregate_by_date.len()
        invariant
            i <= aggregate_by_date.len(),
            seen@ == keys_of(aggregate_by_date@.take(i as int)),
        decreases aggregate_by_date.len() - i,
    {
        proof {
            lemma_keys_of_push(aggregate_by_date@.take(i as int), aggregate_by_date@[i as int]);
            assert(aggregate_by_date@.take(i as int).push(aggregate_by_date@[i as int])
                =~= aggregate_by_date@.take(i + 1));
        }
        seen.insert(aggregate_by_date[i].bucket_key());
        i += 1;
    }
    assert(aggregate_by_date@.take(aggregate_by_date.len() as int) =~= aggregate_by_date@);

    let mut missing: Vec<AttractionByDate> = Vec::new();
    let mut j: usize = 0;
    assert(keys_of(ratings_by_date@.take(0)) =~= Set::<u64>::empty());
    assert(seen@ =~= keys_of(aggregate_by_date@).union(keys_of(ratings_by_date@.take(0))));
    while j < ratings_by_date.len()
        invariant
            j <= ratings_by_date.len(),
            seen@ == keys_of(aggregate_by_date@).union(keys_of(ratings_by_date@.take(j as int))),
            missing@ == missing_buckets(ratings_by_date@.take(j as int), aggregate_by_date@),
        decreases ratings_by_date.len() - j,
    {
        let bucket = ratings_by_date[j];
        let key = bucket.bucket_key();
        proof {
            let earlier = ratings_by_date@.take(j as int);
            assert(earlier.push(bucket) =~= ratings_by_date@.take(j + 1));
            assert(ratings_by_date@.take(j + 1).drop_last() =~= earlier);
            lemma_keys_of_push(earlier, bucket);
            lemma_occurs_by_key(bucket, aggregate_by_date@);
            lemma_occurs_by_key(bucket, earlier);
            assert(seen@.insert(key) =~= keys_of(aggregate_by_date@).union(
                keys_of(ratings_by_date@.take(j + 1)),
            ));
        }
        if seen.insert(key) {
            missing.push(bucket);
        }
        j += 1;
    }
    assert(ratings_by_date@.take(ratings_by_date.len() as int) =~= ratings_by_date@);
    missing
}

/// Where a reconciliation stands.
#[derive(Clone, Copy, Debug, PartialEq, Eq, Structural)]
pub enum ReconciliationStage {
    /// Waiting for the buckets that have ratings.
    ListingRatings,
    /// Waiting for the buckets that have an aggregate.
    ListingAggregates,
    /// Waiting for the ratings of the missing bucket at hand.
    FetchingRatings,
    /// Waiting for the aggregate of the missing bucket at hand to be stored.
    SavingAggregate,
    /// Every missing bucket was attempted.
    Finished,
    /// The buckets could not be listed.
    Failed,
}

/// The mathematical content of a [`Reconciliation`].
#[verifier::ext_equal]
pub struct ReconciliationView {
    pub attraction_id: i32,
    pub stage: ReconciliationStage,
    /// The buckets that have ratings, once they are known.
    pub ratings_by_date: Seq<AttractionByDate>,
    /// The buckets to aggregate, once they are known.
    pub missing: Seq<AttractionByDate>,
    /// How many of the missing buckets were dealt with.
    pub position: int,
    /// How many of these could not be aggregated or stored.
    pub failures: int,
    /// Why the buckets could not be listed.
    pub error: Option<AggregationError>,
}

impl ReconciliationView {
    /// No bucket was dealt with while the buckets are listed, a bucket is at
    /// hand while one is being fetched or stored, no more buckets failed than
    /// were dealt with, and there is an error exactly when the reconciliation
    /// failed.
    pub open spec fn valid(self) -> bool {
        &&& 0 <= self.failures <= self.position <= self.missing.len()
        &&& self.listing() ==> self.position == 0
        &&& self.working() ==> self.position < self.missing.len()
        &&& self.stage == ReconciliationStage::Finished ==> self.position == self.missing.len()
        &&& self.stage == ReconciliationStage::Failed <==> self.error is Some
    }

    /// The buckets are being listed.
    pub open spec fn listing(self) -> bool {
        self.stage == ReconciliationStage::ListingRatings || self.stage
            == ReconciliationStage::ListingAggregates
    }

    /// A bucket is being fetched or stored.
    pub open spec fn working(self) -> bool {
        self.stage == ReconciliationStage::FetchingRatings || self.stage
            == ReconciliationStage::SavingAggregate
    }

    /// Nothing more will be asked.
    pub open spec fn ended(self) -> bool {
        self.stage == ReconciliationStage::Finished || self.stage == ReconciliationStage::Failed
    }

    /// The state in which a reconciliation of `attraction_id` begins.
    pub open spec fn begun(attraction_id: i32) -> ReconciliationView {
        ReconciliationView {
            attraction_id,
            stage: ReconciliationStage::ListingRatings,
            ratings_by_date: Seq::empty(),
            missing: Seq::empty(),
            position: 0,
            failures: 0,
            error: None,
        }
    }

    /// The bucket at hand.
    pub open spec fn current(self) -> AttractionByDate {
        self.missing[self.position]
    }

    /// This state, failed for the given reason.
    pub open spec fn failed(self, error: AggregationError) -> ReconciliationView {
        ReconciliationView { stage: ReconciliationStage::Failed, error: Some(error), ..self }
    }

    /// This state at `position`: fetching that bucket if there is one,
    /// finished otherwise.
    pub open spec fn turned_to(self, position: int) -> ReconciliationView {
        ReconciliationView {
            stage: if position < self.missing.len() {
                ReconciliationStage::FetchingRatings
            } else {
                ReconciliationStage::Finished
            },
            position,
            ..self
        }
    }

    /// This state after the bucket at hand was dealt with, with or without
    /// success: the next bucket is at hand.
    pub open spec fn moved_on(self, failed: bool) -> ReconciliationView {
        ReconciliationView {
            failures: if failed {
                self.failures + 1
            } else {
                self.failures
            },
            ..self
        }.turned_to(self.position + 1)
    }

    /// The state that follows this one when `reply` comes in.
    ///
    /// A failure to list buckets ends the reconciliation. A failure to fetch,
    /// aggregate or store one bucket is counted, and the next bucket is taken
    /// up. A reply that does not answer what was asked counts as a failure of
    /// what was asked.
    pub open spec fn after(self, reply: Reply) -> ReconciliationView {
        match self.stage {
            ReconciliationStage::ListingRatings => match reply {
                Reply::ByDate(Ok(buckets)) => ReconciliationView {
                    stage: ReconciliationStage::ListingAggregates,
                    ratings_by_date: buckets@,
                    ..self
                },
                Reply::ByDate(Err(message)) => self.failed(
                    AggregationError::StoreUnavailable(message),
                ),
                _ => self.failed(AggregationError::UnexpectedReply),
            },
            ReconciliationStage::ListingAggregates => match reply {
                Reply::ByDate(Ok(buckets)) => ReconciliationView {
                    missing: missing_buckets(self.ratings_by_date, buckets@),
                    ..self
                }.turned_to(0),
                Reply::ByDate(Err(message)) => self.failed(
                    AggregationError::StoreUnavailable(message),
                ),
                _ => self.failed(AggregationError::UnexpectedReply),
            },
            ReconciliationStage::FetchingRatings => match reply {
                Reply::SortedRatings(Ok(ratings)) => if can_aggregate(ratings@) {
                    ReconciliationView { stage: ReconciliationStage::SavingAggregate, ..self }
                } else {
                    self.moved_on(true)
                },
                _ => self.moved_on(true),
            },
            ReconciliationStage::SavingAggregate => match reply {
                Reply::Saved(Ok(_)) => self.moved_on(false),
                _ => self.moved_on(true),
            },
            ReconciliationStage::Finished => self,
            ReconciliationStage::Failed => self,
        }
    }

    /// What is asked next when `reply` comes in: the aggregates after the
    /// ratings were listed, the ratings of the bucket that is taken up, the
    /// storing of the aggregate of the ratings that came in. Nothing once the
    /// reconciliation has ended.
    pub open spec fn asked(self, reply: Reply) -> Option<RequestView> {
        let next = self.after(reply);
        if self.ended() {
            None
        } else {
            match next.stage {
                ReconciliationStage::ListingRatings => None,
                ReconciliationStage::ListingAggregates => Some(
                    RequestView::GroupAggregateByDate { attraction_id: self.attraction_id },
                ),
                ReconciliationStage::FetchingRatings => Some(
                    RequestView::SortedRatingsFor {
                        attraction_id: next.current().attraction_id,
                        from: next.current().at.date,
                    },
                ),
                ReconciliationStage::SavingAggregate => match reply {
                    Reply::SortedRatings(Ok(ratings)) => Some(
                        RequestView::SaveAttractionRatingAggregate {
                            aggregate: aggregate_of(
                                self.current().attraction_id,
                                self.current().at.date,
                                ratings@,
                            ),
                        },
                    ),
                    _ => None,
                },
                ReconciliationStage::Finished => None,
                ReconciliationStage::Failed => None,
            }
        }
    }

    /// How the reconciliation ended, once it has: well when every missing
    /// bucket was attempted, whatever became of each; with the error when the
    /// buckets could not be listed.
    pub open spec fn outcome(self) -> Option<Result<(), AggregationError>> {
        match self.stage {
            ReconciliationStage::Finished => Some(Ok(())),
            ReconciliationStage::Failed => Some(Err(self.error->0)),
            _ => None,
        }
    }

    /// The number of replies that are still needed at most.
    pub open spec fn remaining(self) -> int {
        match self.stage {
            ReconciliationStage::FetchingRatings => 2 * (self.missing.len() - self.position),
            ReconciliationStage::SavingAggregate => 2 * (self.missing.len() - self.position) - 1,
            _ => 0,
        }
    }
}

/// Every state that is reached is valid.
pub proof fn lemma_after_is_valid(state: ReconciliationView, reply: Reply)
    requires
        state.valid(),
    ensures
        state.after(reply).valid(),
{
}

/// One bucket's failure does not end the reconciliation: while a bucket is
/// at hand, no reply makes the reconciliation fail, every reply brings the
/// end nearer, and what was listed stays as it is.
pub proof fn lemma_bucket_failure_is_isolated(state: ReconciliationView, reply: Reply)
    requires
        state.valid(),
        state.working(),
    ensures
        state.after(reply).stage != ReconciliationStage::Failed,
        state.after(reply).remaining() < state.remaining(),
        state.after(reply).missing == state.missing,
        state.after(reply).position == state.position || state.after(reply).position
            == state.position + 1,
{
}

/// A reconciliation fails only where the buckets cannot be listed, and it
/// ends well only after every missing bucket was attempted.
pub proof fn lemma_how_reconciliation_ends(state: ReconciliationView, reply: Reply)
    requires
        state.valid(),
        !state.ended(),
    ensures
        state.after(reply).stage == ReconciliationStage::Failed ==> (state.stage
            == ReconciliationStage::ListingRatings || state.stage
            == ReconciliationStage::ListingAggregates) && !(reply matches Reply::ByDate(Ok(_))),
        state.after(reply).outcome() == Some(Ok::<(), AggregationError>(())) ==> state.after(
            reply,
        ).position == state.after(reply).missing.len(),
{
}

/// Where every bucket with ratings has its aggregate, the reconciliation ends
/// at once and asks for nothing to be stored. So it does after a
/// reconciliation that stored an aggregate for every missing bucket.
pub proof fn lemma_reconciled_attraction_asks_nothing(
    state: ReconciliationView,
    aggregate_by_date: Vec<AttractionByDate>,
)
    requires
        state.valid(),
        state.stage == ReconciliationStage::ListingAggregates,
        forall|i: int|
            0 <= i < state.ratings_by_date.len() ==> occurs_in(
                #[trigger] state.ratings_by_date[i],
                aggregate_by_date@,
            ),
    ensures
        state.after(Reply::ByDate(Ok(aggregate_by_date))).stage == ReconciliationStage::Finished,
        state.after(Reply::ByDate(Ok(aggregate_by_date))).missing.len() == 0,
        state.asked(Reply::ByDate(Ok(aggregate_by_date))) is None,
{
    lemma_nothing_missing(state.ratings_by_date, aggregate_by_date@);
}

/// Once ended, a reconciliation stays as it is and asks nothing.
pub proof fn lemma_ended_stays(state: ReconciliationView, reply: Reply)
    requires
        state.ended(),
    ensures
        state.after(reply) == state,
        state.asked(reply) is None,
{
}

/// The reconciliation of one attraction: which buckets have ratings and no
/// aggregate yet, and how far their aggregation has come.
#[derive(Debug)]
pub struct Reconciliation {
    attraction_id: i32,
    stage: ReconciliationStage,
    ratings_by_date: Vec<AttractionByDate>,
    missing: Vec<AttractionByDate>,
    position: usize,
    failures: usize,
    error: Option<AggregationError>,
}

impl View for Reconciliation {
    type V = ReconciliationView;

    closed spec fn view(&self) -> ReconciliationView {
        ReconciliationView {
            attraction_id: self.attraction_id,
            stage: self.stage,
            ratings_by_date: self.ratings_by_date@,
            missing: self.missing@,
            position: self.position as int,
            failures: self.failures as int,
            error: self.error,
        }
    }
}

impl Reconciliation {
    #[verifier::type_invariant]
    closed spec fn well_formed(&self) -> bool {
        self@.valid()
    }

    /// Begins the reconciliation of an attraction, and asks for the buckets
    /// in which it has ratings.
    pub fn begin(attraction_id: i32) -> (r: (Reconciliation, Request))
        ensures
            r.0@ == ReconciliationView::begun(attraction_id),
            r.0@.valid(),
            r.1@ == (RequestView::GroupRatingsByDate { attraction_id }),
    {
        let state = Reconciliation {
            attraction_id,
            stage: ReconciliationStage::ListingRatings,
            ratings_by_date: Vec::new(),
            missing: Vec::new(),
            position: 0,
            failures: 0,
            error: None,
        };
        (state, Request::GroupRatingsByDate { attraction_id })
    }

    /// Takes the reply to what was asked last, and says what to ask next, if
    /// anything.
    pub fn advance(self, reply: Reply) -> (r: (Reconciliation, Option<Request>))
        ensures
            r.0@ == self@.after(reply),
            r.0@.valid(),
            request_view(r.1) == self@.asked(reply),
    {
        proof {
            use_type_invariant(&self);
        }
        let Reconciliation {
            attraction_id,
            stage,
            ratings_by_date,
            missing,
            position,
            failures,
            error,
        } = self;
        match stage {
            ReconciliationStage::ListingRatings => match reply {
                Reply::ByDate(Ok(buckets)) => (
                    Reconciliation {
                        attraction_id,
                        stage: ReconciliationStage::ListingAggregates,
                        ratings_by_date: buckets,
                        missing,
                        position,
                        failures,
                        error,
                    },
                    Some(Request::GroupAggregateByDate { attraction_id }),
                ),
                Reply::ByDate(Err(message)) => (
                    Reconciliation {
                        attraction_id,
                        stage: ReconciliationStage::Failed,
                        ratings_by_date,
                        missing,
                        position,
                        failures,
                        error: Some(AggregationError::StoreUnavailable(message)),
                    },
                    None,
                ),
                _ => (
                    Reconciliation {
                        attraction_id,
                        stage: ReconciliationStage::Failed,
                        ratings_by_date,
                        missing,
                        position,
                        failures,
                        error: Some(AggregationError::UnexpectedReply),
                    },
                    None,
                ),
            },
            ReconciliationStage::ListingAggregates => match reply {
                Reply::ByDate(Ok(buckets)) => {
                    let missing = missing_aggregates(&ratings_by_date, &buckets);
                    Reconciliation::turn_to(attraction_id, ratings_by_date, missing, 0, 0)
                },
                Reply::ByDate(Err(message)) => (
                    Reconciliation {
                        attraction_id,
                        stage: ReconciliationStage::Failed,
                        ratings_by_date,
                        missing,
                        position,
                        failures,
                        error: Some(AggregationError::StoreUnavailable(message)),
                    },
                    None,
                ),
                _ => (
                    Reconciliation {
                        attraction_id,
                        stage: ReconciliationStage::Failed,
                        ratings_by_date,
                        missing,
                        position,
                        failures,
                        error: Some(AggregationError::UnexpectedReply),
                    },
                    None,
                ),
            },
            ReconciliationStage::FetchingRatings => {
                assert(position < missing.len());
                let bucket = missing[position];
                let aggregated = match reply {
                    Reply::SortedRatings(Ok(ratings)) => daily_aggregate(
                        bucket.attraction_id,
                        bucket.at.date(),
                        &ratings,
                    ),
                    _ => Err(AggregationError::UnexpectedReply),
                };
                match aggregated {
                    Ok(aggregate) => (
                        Reconciliation {
                            attraction_id,
                            stage: ReconciliationStage::SavingAggregate,
                            ratings_by_date,
                            missing,
                            position,
                            failures,
                            error,
                        },
                        Some(Request::SaveAttractionRatingAggregate { aggregate }),
                    ),
                    Err(_) => Reconciliation::turn_to(
                        attraction_id,
                        ratings_by_date,
                        missing,
                        position + 1,
                        failures + 1,
                    ),
                }
            },
            ReconciliationStage::SavingAggregate => {
                assert(position < missing.len());
                let failed: usize = match reply {
                    Reply::Saved(Ok(_)) => 0,
                    _ => 1,
                };
                Reconciliation::turn_to(
                    attraction_id,
                    ratings_by_date,
                    missing,
                    position + 1,
                    failures + failed,
                )
            },
            ReconciliationStage::Finished => (
                Reconciliation {
                    attraction_id,
                    stage,
                    ratings_by_date,
                    missing,
                    position,
                    failures,
                    error,
                },
                None,
            ),
            ReconciliationStage::Failed => (
                Reconciliation {
                    attraction_id,
                    stage,
                    ratings_by_date,
                    missing,
                    position,
                    failures,
                    error,
                },
                None,
            ),
        }
    }

    /// The state at `position`, and the request for the ratings of the bucket
    /// there, if there is one.
    fn turn_to(
        attraction_id: i32,
        ratings_by_date: Vec<AttractionByDate>,
        missing: Vec<AttractionByDate>,
        position: usize,
        failures: usize,
    ) -> (r: (Reconciliation, Option<Request>))
        requires
            failures <= position <= missing.len(),
        ensures
            r.0@ == (ReconciliationView {
                attraction_id,
                stage: ReconciliationStage::Finished,
                ratings_by_date: ratings_by_date@,
                missing: missing@,
                position: position as int,
                failures: failures as int,
                error: None,
            }).turned_to(position as int),
            r.0@.valid(),
            request_view(r.1) == (if position < missing.len() {
                Some(
                    RequestView::SortedRatingsFor {
                        attraction_id: missing@[position as int].attraction_id,
                        from: missing@[position as int].at.date,
                    },
                )
            } else {
                None
            }),
    {
        if position < missing.len() {
            let bucket = missing[position];
            (
                Reconciliation {
                    attraction_id,
                    stage: ReconciliationStage::FetchingRatings,
                    ratings_by_date,
                    missing,
                    position,
                    failures,
                    error: None,
                },
                Some(
                    Request::SortedRatingsFor {
                        attraction_id: bucket.attraction_id,
                        from: bucket.at.date(),
                    },
                ),
            )
        } else {
            (
                Reconciliation {
                    attraction_id,
                    stage: ReconciliationStage::Finished,
                    ratings_by_date,
                    missing,
                    position,
                    failures,
                    error: None,
                },
                None,
            )
        }
    }

    /// How the reconciliation ended, once it has.
    pub fn outcome(&self) -> (r: Option<Result<(), AggregationError>>)
        ensures
            r == self@.outcome(),
    {
        proof {
            use_type_invariant(self);
        }
        match self.stage {
            ReconciliationStage::Finished => Some(Ok(())),
            ReconciliationStage::Failed => match &self.error {
                Some(e) => Some(Err(e.clone())),
                None => None,
            },
            _ => None,
        }
    }

    /// Where the reconciliation stands.
    pub fn stage(&self) -> (r: ReconciliationStage)
        ensures
            r == self@.stage,
    {
        self.stage
    }

    /// The buckets to aggregate; empty until they are known.
    pub fn missing(&self) -> (r: &Vec<AttractionByDate>)
        ensures
            r@ == self@.missing,
    {
        &self.missing
    }

    /// How many of the missing buckets were dealt with.
    pub fn attempted(&self) -> (r: usize)
        ensures
            r == self@.position,
    {
        self.position
    }

    /// How many of the missing buckets could not be aggregated or stored.
    pub fn failures(&self) -> (r: usize)
        ensures
            r == self@.failures,
    {
        self.failures
    }
}

/// The engine over a repository of attractions: it begins reconciliations
/// and passes, which the holder of the repository then carries through.
pub struct AttractionSimilarity<AttractionRepo> {
    attraction_repo: AttractionRepo,
}

impl<AttractionRepo> AttractionSimilarity<AttractionRepo> {
    /// The repository that the engine is meant for.
    pub closed spec fn repository(&self) -> AttractionRepo {
        self.attraction_repo
    }

    pub fn new(attraction_repo: AttractionRepo) -> (r: Self)
        ensures
            r.repository() == attraction_repo,
    {
        AttractionSimilarity { attraction_repo }
    }

    /// The repository that the engine is meant for.
    pub fn attraction_repo(&self) -> (r: &AttractionRepo)
        ensures
            *r == self.repository(),
    {
        &self.attraction_repo
    }

    /// Begins to fill in the daily aggregates that attraction
    /// `attraction_id` lacks, and asks for the buckets in which it has
    /// ratings.
    pub fn aggregate_for(&self, attraction_id: i32) -> (r: (Reconciliation, Request))
        ensures
            r.0@ == ReconciliationView::begun(attraction_id),
            r.0@.valid(),
            r.1@ == (RequestView::GroupRatingsByDate { attraction_id }),
    {
        Reconciliation::begin(attraction_id)
    }

    /// Begins to score every attraction against every other, and asks for
    /// the identifiers of the attractions.
    pub fn generate_similarity(&self) -> (r: (SimilarityPass, Request))
        ensures
            r.0@ == SimilarityPassView::begun(),
            r.0@.valid(),
            r.1@ == RequestView::AllAttractionsIds,
    {
        SimilarityPass::begin()
    }
}

} // verus!
