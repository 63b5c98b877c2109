//! Sending one value into a sink without flushing it, as a pollable task.
use vstd::prelude::*;

verus! {

/// A sink's answer to an item that it was asked to start sending.
pub enum AsyncSink<T> {
    /// The sink took the item.
    Ready,
    /// The sink cannot take the item yet and hands it back.
    NotReady(T),
}

/// Whether a pollable task has completed.
pub enum Async<T> {
    /// Completed with this value.
    Ready(T),
    /// Not complete yet; poll again later.
    NotReady,
}

/// A destination for values that may not be able to take one at once.
pub trait Sink<I, E> {
    /// Asks the sink to take `item`.
    fn start_send(&mut self, item: I) -> Result<AsyncSink<I>, E>;
}

/// What a send task reports, and what it keeps for its next poll, once the
/// sink has answered `answer`: a sink that took the item is handed back, one
/// that refused it keeps waiting with the returned item, and an error ends the
/// task.
pub open spec fn send_outcome<S, I, E>(sink: S, answer: Result<AsyncSink<I>, E>) -> (
    Result<Async<S>, E>,
    Option<(S, I)>,
) {
    match answer {
        Ok(AsyncSink::Ready) => (Ok(Async::Ready(sink)), None),
        Ok(AsyncSink::NotReady(item)) => (Ok(Async::NotReady), Some((sink, item))),
        Err(e) => (Err(e), None),
    }
}

/// Concludes one attempt to send: given the sink after it answered, and its
/// answer, returns what the task reports and what it keeps for the next poll.
pub fn settle<S, I, E>(sink: S, answer: Result<AsyncSink<I>, E>) -> (r: (
    Result<Async<S>, E>,
    Option<(S, I)>,
))
    ensures
        r == send_outcome(sink, answer),
{
    match answer {
        Ok(AsyncSink::Ready) => (Ok(Async::Ready(sink)), None),
        Ok(AsyncSink::NotReady(item)) => (Ok(Async::NotReady), Some((sink, item))),
        Err(e) => (Err(e), None),
    }
}

/// A task that sends one value into a sink, and completes with the sink once
/// the sink took it.
pub struct SendToSink<S, I> {
    waiting: Option<(S, I)>,
}

/// Returns a task that sends `item` into `sink`, but does not flush it.
pub fn send_to_sink<S, I>(sink: S, item: I) -> (r: SendToSink<S, I>)
    ensures
        r.waiting() == Some((sink, item)),
{
    SendToSink { waiting: Some((sink, item)) }
}

impl<S, I> SendToSink<S, I> {
    /// The sink and the item still to be sent, while the task has not ended.
    pub closed spec fn waiting(&self) -> Option<(S, I)> {
        self.waiting
    }

    /// Whether the task has ended, by completing or by failing.
    pub fn is_done(&self) -> (r: bool)
        ensures
            r == self.waiting() is None,
    {
        self.waiting.is_none()
    }

    /// Takes out the sink and the item still to be sent; the task is then
    /// empty until [`SendToSink::resume`] puts back what is to be kept.
    fn take_waiting(&mut self) -> (r: (S, I))
        requires
            old(self).waiting() is Some,
        ensures
            Some(r) == old(self).waiting(),
            final(self).waiting() is None,
    {
        let mut taken = None;
        std::mem::swap(&mut taken, &mut self.waiting);
        taken.unwrap()
    }

    /// Concludes one attempt to send, given the sink that was offered the
    /// waiting item and its `answer`: the task completes with that same sink
    /// when it took the item, keeps waiting with the same sink and the item it
    /// handed back when it refused, and ends with its error otherwise.
    pub fn resume<E>(&mut self, sink: S, answer: Result<AsyncSink<I>, E>) -> (r: Result<
        Async<S>,
        E,
    >)
        ensures
            (r, final(self).waiting()) == send_outcome(sink, answer),
    {
        let (r, keep) = settle(sink, answer);
        self.waiting = keep;
        r
    }

    /// Offers the waiting item to the waiting sink once, and hands the sink
    /// and its answer to [`SendToSink::resume`]. The task completes with the
    /// sink when the sink takes the item, keeps waiting with the sink and the
    /// handed-back item when it refuses, and ends with the sink's error
    /// otherwise.
    pub fn poll<E>(&mut self) -> (r: Result<Async<S>, E>) where S: Sink<I, E>
        requires
            old(self).waiting() is Some,
        ensures
            exists|sink: S, answer: Result<AsyncSink<I>, E>|
                (r, final(self).waiting()) == #[trigger] send_outcome(sink, answer),
    {
        let (mut sink, item) = self.take_waiting();
        let answer = sink.start_send(item);
        let ghost answered = answer;
        let ghost after = sink;
        let r = self.resume(sink, answer);
        proof {
            assert((r, self.waiting) == send_outcome(after, answered));
        }
        r
    }
}

} // verus!
