//! Which application a scope asks for.

use vstd::prelude::*;

verus! {

/// The kind of application to start.
#[derive(Clone, Copy, Debug, PartialEq, Eq, Structural)]
pub enum Scope {
    /// Controllers over the database.
    Database,
    /// Controllers over repositories that hold nothing, with the database
    /// connection opened all the same.
    Test,
    /// Controllers over repositories that hold nothing.
    Dummy,
}

/// The scope that a name asks for.
pub open spec fn scope_named(name: Seq<char>) -> Scope {
    if name == "DEV"@ || name == "PROD"@ {
        Scope::Database
    } else if name == "TEST"@ {
        Scope::Test
    } else {
        Scope::Dummy
    }
}

/// The scope that a name asks for: the database for `DEV` and `PROD`, the
/// test application for `TEST`, the dummy application for any other name.
pub fn scope_of(name: &String) -> (r: Scope)
    ensures
        r == scope_named(name@),
{
    if *name == "DEV".to_owned() || *name == "PROD".to_owned() {
        Scope::Database
    } else if *name == "TEST".to_owned() {
        Scope::Test
    } else {
        Scope::Dummy
    }
}

/// The name of the scope where none is given: `TEST`.
pub fn default_scope_name() -> (r: String)
    ensures
        r@ == "TEST"@,
{
    "TEST".to_owned()
}

} // verus!
