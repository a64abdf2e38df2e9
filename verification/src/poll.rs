//! The outcome of asking an unfinished computation for its result.
use vstd::prelude::*;

verus! {

/// Either the result of a computation or the news that it is still running.
#[derive(Debug, PartialEq)]
pub enum Poll<T> {
    /// The computation has finished with this result.
    Ready(T),
    /// The computation is still running.
    Pending,
}

} // verus!
