//! A repository of aggregates and similarities that stores nothing.

use vstd::prelude::*;

verus! {

/// A repository of aggregates and similarities that holds nothing: a stand-in
/// where no store is configured.
#[derive(Clone, Copy, Debug)]
pub struct DummySimilarityRepo;

impl Default for DummySimilarityRepo {
    fn default() -> (r: Self)
        ensures
            r == DummySimilarityRepo,
    {
        DummySimilarityRepo
    }
}

} // verus!
