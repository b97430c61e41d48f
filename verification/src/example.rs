use vstd::prelude::*;
use crate::error::GhostError;

verus! {

/// Custom example error type; custom errors must support `From<GhostError>`.
#[derive(Debug)]
pub enum MyError {
    /// A ghost-actor error.
    GhostError(GhostError),
}

impl From<GhostError> for MyError {
    fn from(e: GhostError) -> (m: MyError)
        ensures
            m == MyError::GhostError(e),
    {
        MyError::GhostError(e)
    }
}

impl vstd::std_specs::convert::FromSpecImpl<GhostError> for MyError {
    open spec fn obeys_from_spec() -> bool {
        true
    }

    open spec fn from_spec(v: GhostError) -> MyError {
        MyError::GhostError(v)
    }
}

} // verus!
