//! The outside concurrent queue that carries a channel's messages, and the
//! trusted calls into it.
//!
//! Every operation takes the queue by shared reference and other threads act
//! on it at the same time, so what a call reports depends on what those
//! threads did: none of these contracts states a length, a fullness or an
//! order of items, only what holds of every outcome.

use vstd::prelude::*;
use crate::error::{TryRecvError, TrySendError};
use concurrent_queue::{ConcurrentQueue, PopError, PushError};

verus! {

#[verifier::external_type_specification]
#[verifier::external_body]
#[verifier::reject_recursive_types(T)]
pub struct ExConcurrentQueue<T>(ConcurrentQueue<T>);

/// Calls `ConcurrentQueue::bounded`, which allocates `cap` slots. It panics on
/// a zero capacity, which `requires` leaves out; the allocation of the slots
/// can fail for capacities that do not fit in memory, which is not stated.
#[verifier::external_body]
pub(crate) fn queue_bounded<T>(cap: usize) -> (q: ConcurrentQueue<T>)
    requires
        cap > 0,
{
    ConcurrentQueue::bounded(cap)
}

/// Calls `ConcurrentQueue::unbounded`.
#[verifier::external_body]
pub(crate) fn queue_unbounded<T>() -> (q: ConcurrentQueue<T>) {
    ConcurrentQueue::unbounded()
}

/// Calls `ConcurrentQueue::push` and converts its `PushError` variant by
/// variant. The queue's documentation and source hand the item back in
/// either error; whether the push succeeds depends on the other threads.
#[verifier::external_body]
pub(crate) fn queue_push<T>(q: &ConcurrentQueue<T>, value: T) -> (r: Result<(), TrySendError<T>>)
    ensures
        r is Err ==> r->Err_0.inner() == value,
{
    match q.push(value) {
        Ok(()) => Ok(()),
        Err(PushError::Full(v)) => Err(TrySendError::Full(v)),
        Err(PushError::Closed(v)) => Err(TrySendError::Closed(v)),
    }
}

/// Calls `ConcurrentQueue::pop` and converts its `PopError` variant by
/// variant. Which item comes out, or whether one does, depends on the other
/// threads, so nothing is stated of the result.
#[verifier::external_body]
pub(crate) fn queue_pop<T>(q: &ConcurrentQueue<T>) -> (r: Result<T, TryRecvError>) {
    match q.pop() {
        Ok(v) => Ok(v),
        Err(PopError::Empty) => Err(TryRecvError::Empty),
        Err(PopError::Closed) => Err(TryRecvError::Closed),
    }
}

/// Calls `ConcurrentQueue::close`; its result tells whether this call closed
/// the queue, which depends on the other threads.
#[verifier::external_body]
pub(crate) fn queue_close<T>(q: &ConcurrentQueue<T>) -> (closed_now: bool) {
    q.close()
}

/// Calls `ConcurrentQueue::is_closed`.
#[verifier::external_body]
pub(crate) fn queue_is_closed<T>(q: &ConcurrentQueue<T>) -> (b: bool) {
    q.is_closed()
}

/// Calls `ConcurrentQueue::is_empty`.
#[verifier::external_body]
pub(crate) fn queue_is_empty<T>(q: &ConcurrentQueue<T>) -> (b: bool) {
    q.is_empty()
}

/// Calls `ConcurrentQueue::is_full`.
#[verifier::external_body]
pub(crate) fn queue_is_full<T>(q: &ConcurrentQueue<T>) -> (b: bool) {
    q.is_full()
}

/// Calls `ConcurrentQueue::len`.
#[verifier::external_body]
pub(crate) fn queue_len<T>(q: &ConcurrentQueue<T>) -> (n: usize) {
    q.len()
}

/// Calls `ConcurrentQueue::capacity`, which gives back the capacity the
/// queue was made with, or `None` for an unbounded queue. That tie is not
/// stated: a name for it would have to range over the message type.
#[verifier::external_body]
pub(crate) fn queue_capacity<T>(q: &ConcurrentQueue<T>) -> (cap: Option<usize>) {
    q.capacity()
}

/// Evidence that a push was made: the item handed to the queue and what the
/// queue answered. Only this module makes one, right after the push, so a
/// value of this type stands for a push that really happened.
#[verifier::reject_recursive_types(T)]
pub struct PushRecord<T> {
    value: Ghost<T>,
    outcome: Ghost<Result<(), TrySendError<T>>>,
}

impl<T> PushRecord<T> {
    /// The item that was pushed.
    pub closed spec fn value(&self) -> T {
        self.value@
    }

    /// What the queue answered.
    pub closed spec fn outcome(&self) -> Result<(), TrySendError<T>> {
        self.outcome@
    }
}

/// How a pop came out, without the item.
pub enum PopOutcome {
    /// An item was taken out of the queue.
    Popped,
    /// The queue was empty and open.
    Empty,
    /// The queue was empty and closed.
    Closed,
}

/// How a pop's result came out.
pub open spec fn pop_outcome_of<T>(r: Result<T, TryRecvError>) -> PopOutcome {
    match r {
        Ok(_) => PopOutcome::Popped,
        Err(TryRecvError::Empty) => PopOutcome::Empty,
        Err(TryRecvError::Closed) => PopOutcome::Closed,
    }
}

/// Evidence that a pop was made, and how it came out. Only this module
/// makes one, right after the pop.
pub struct PopRecord {
    outcome: Ghost<PopOutcome>,
}

impl PopRecord {
    /// How the pop came out.
    pub closed spec fn outcome(&self) -> PopOutcome {
        self.outcome@
    }
}

/// Pushes `value` and hands back, beside the queue's answer, the evidence
/// of that push.
pub(crate) fn push_recorded<T>(q: &ConcurrentQueue<T>, value: T) -> (r: (
    Result<(), TrySendError<T>>,
    PushRecord<T>,
))
    ensures
        r.0 is Err ==> r.0->Err_0.inner() == value,
        r.1.value() == value,
        r.1.outcome() == r.0,
{
    let ghost v = value;
    let res = queue_push(q, value);
    let ghost o = res;
    (res, PushRecord { value: Ghost(v), outcome: Ghost(o) })
}

/// Pops an item and hands back, beside the queue's answer, the evidence of
/// that pop.
pub(crate) fn pop_recorded<T>(q: &ConcurrentQueue<T>) -> (r: (Result<T, TryRecvError>, PopRecord))
    ensures
        r.1.outcome() == pop_outcome_of(r.0),
{
    let res = queue_pop(q);
    let ghost o = pop_outcome_of(res);
    (res, PopRecord { outcome: Ghost(o) })
}

} // verus!
