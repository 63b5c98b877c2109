//! The producer capability: a source that, when asked, yields an item, reports
//! that it is not ready yet, reports that it is finished for good, or fails.
use vstd::prelude::*;

verus! {

/// The outcome of asking a producer for its next result.
pub enum Poll<T, E> {
    /// Nothing is available yet; ask again later.
    Pending,
    /// The next item.
    Item(T),
    /// The producer is exhausted and will yield nothing more.
    Finished,
    /// The producer failed.
    Error(E),
}

impl<T, E> Poll<T, E> {
    /// Whether this outcome reports that the producer is exhausted.
    pub fn is_finished(&self) -> (r: bool)
        ensures
            r == (*self is Finished),
    {
        match self {
            Poll::Finished => true,
            _ => false,
        }
    }
}

/// A stateful source of values that can be asked for its next result without
/// blocking.
pub trait Producer<T, E> {
    /// Asks for the next result.
    fn poll(&mut self) -> Poll<T, E>;
}

} // verus!
