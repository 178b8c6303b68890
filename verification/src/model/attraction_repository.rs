//! What identifies a stored row, and a repository that stores nothing.

use vstd::prelude::*;

verus! {

/// The identifier of a stored row.
#[derive(Clone, Copy, Debug, PartialEq, Eq, Structural)]
pub struct EntityId {
    pub id: i32,
}

impl EntityId {
    /// The identifier as text: as `i32` displays it.
    pub fn to_string(&self) -> (r: String)
        ensures
            vstd::string::to_string_from_display_ensures::<i32>(&self.id, r),
    {
        self.id.to_string()
    }
}

/// A repository of attractions that holds nothing: a stand-in where no store
/// is configured.
#[derive(Clone, Copy, Debug)]
pub struct DummyAttractionRepo;

impl Default for DummyAttractionRepo {
    fn default() -> (r: Self)
        ensures
            r == DummyAttractionRepo,
    {
        DummyAttractionRepo
    }
}

} // verus!
