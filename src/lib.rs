//! Small utilities around cooperatively scheduled producers: a keyed round-robin
//! multiplexer, a one-shot sink sender, and a few helpers.
use vstd::prelude::*;

pub mod laws;
pub mod logging;
pub mod producer;
pub mod report;
pub mod select_set;
pub mod sink;

verus! {

/// Relies on `Arc::try_unwrap`: it hands back the inner value when this is the
/// only strong reference, and otherwise the same `Arc` that was passed in.
#[verifier::external_body]
fn try_unwrap<T>(arc: std::sync::Arc<T>) -> (r: Result<T, std::sync::Arc<T>>)
    ensures
        match r {
            Ok(t) => t == *arc,
            Err(a) => a == arc,
        },
{
    std::sync::Arc::try_unwrap(arc)
}

/// Runs `func` at once and returns what it returns.
pub fn catch<F: FnOnce() -> T, T>(func: F) -> (r: T)
    requires
        func.requires(()),
    ensures
        func.ensures((), r),
{
    func()
}

/// Unwraps an `Arc`: takes the value out where this is the only strong
/// reference, and clones it otherwise.
pub fn unwrap_arc<T: Clone>(arc: std::sync::Arc<T>) -> (r: T)
    ensures
        cloned::<T>(*arc, r),
{
    match try_unwrap(arc) {
        Ok(t) => t,
        Err(shared) => (*shared).clone(),
    }
}

} // verus!
