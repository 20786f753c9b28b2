//! The shared core of a channel: the message queue, the three event sources
//! and the counts of live senders and receivers.

use vstd::prelude::*;
use crate::error::{TryRecvError, TrySendError};
use crate::queue::{
    pop_outcome_of, pop_recorded, push_recorded, PopRecord, PushRecord,
    queue_bounded, queue_capacity, queue_close, queue_is_closed, queue_is_empty, queue_is_full,
    queue_len, queue_unbounded,
};
use concurrent_queue::ConcurrentQueue;
use event_listener::{Event, EventListener};
use std::sync::atomic::AtomicUsize;

verus! {

/// The largest count of handles before a new handle is refused: past it the
/// count could wrap around.
pub open spec fn handle_limit() -> int {
    (usize::MAX / 2) as int
}

/// A channel through which messages are thrown from senders to receivers.
#[verifier::reject_recursive_types(T)]
pub struct Channel<T> {
    /// Inner message queue.
    queue: ConcurrentQueue<T>,
    /// Notified when a message is received while the queue is full.
    send_event: Event,
    /// Notified when a message is sent while the queue is empty.
    recv_event: Event,
    /// Notified on every send and on close, for receivers used as streams.
    stream_event: Event,
    /// Number of live senders.
    sender_count: AtomicUsize,
    /// Number of live receivers.
    receiver_count: AtomicUsize,
}

impl<T> Channel<T> {
    /// Creates a channel whose queue holds at most `cap` messages, with one
    /// sender and one receiver counted.
    pub fn bounded(cap: usize) -> (ch: Channel<T>)
        requires
            cap > 0,
    {
        Channel {
            queue: queue_bounded(cap),
            send_event: Event::new(),
            recv_event: Event::new(),
            stream_event: Event::new(),
            sender_count: AtomicUsize::new(one_handle()),
            receiver_count: AtomicUsize::new(one_handle()),
        }
    }

    /// Creates a channel whose queue has no limit, with one sender and one
    /// receiver counted.
    pub fn unbounded() -> (ch: Channel<T>) {
        Channel {
            queue: queue_unbounded(),
            send_event: Event::new(),
            recv_event: Event::new(),
            stream_event: Event::new(),
            sender_count: AtomicUsize::new(one_handle()),
            receiver_count: AtomicUsize::new(one_handle()),
        }
    }

    /// Closes the channel. Returns `true` when this call closed it, and then
    /// wakes every waiting sender, receiver and stream.
    pub fn close(&self) -> (closed_now: bool) {
        if queue_close(&self.queue) {
            self.send_event.notify(usize::MAX);
            self.recv_event.notify(usize::MAX);
            self.stream_event.notify(usize::MAX);
            true
        } else {
            false
        }
    }

    /// Attempts to send a message. On failure the error says whether the
    /// queue was full or the channel closed, and hands the message back.
    pub fn try_send(&self, msg: T) -> (r: Result<(), TrySendError<T>>)
        ensures
            r is Err ==> r->Err_0.inner() == msg,
    {
        self.try_send_recorded(msg).0
    }

    /// As `try_send`, handing back beside the result the evidence of the
    /// push into the queue: the message pushed is `msg`, and the result is
    /// what the queue answered.
    pub fn try_send_recorded(&self, msg: T) -> (r: (Result<(), TrySendError<T>>, PushRecord<T>))
        ensures
            r.0 is Err ==> r.0->Err_0.inner() == msg,
            r.1.value() == msg,
            r.1.outcome() == r.0,
    {
        let (r, record) = push_recorded(&self.queue, msg);
        if wakes_after_send(&r) {
            self.recv_event.notify_additional(1);
            self.stream_event.notify(usize::MAX);
        }
        (r, record)
    }

    /// Attempts to receive a message. Fails with `Empty` while the channel is
    /// open and empty, and with `Closed` once it is closed and drained.
    pub fn try_recv(&self) -> (r: Result<T, TryRecvError>) {
        self.try_recv_recorded().0
    }

    /// As `try_recv`, handing back beside the result the evidence of the pop
    /// from the queue: the result is what the queue answered.
    pub fn try_recv_recorded(&self) -> (r: (Result<T, TryRecvError>, PopRecord))
        ensures
            r.1.outcome() == pop_outcome_of(r.0),
    {
        let (r, record) = pop_recorded(&self.queue);
        if wakes_after_recv(&r) {
            self.send_event.notify_additional(1);
        }
        (r, record)
    }

    /// Checks if the message queue is empty.
    pub fn is_empty(&self) -> (b: bool) {
        queue_is_empty(&self.queue)
    }

    /// Checks if the message queue is full.
    pub fn is_full(&self) -> (b: bool) {
        queue_is_full(&self.queue)
    }

    /// Returns the number of messages in the channel.
    pub fn len(&self) -> (n: usize) {
        queue_len(&self.queue)
    }

    /// Returns the capacity of the channel, `None` when it is unbounded.
    pub fn capacity(&self) -> (cap: Option<usize>) {
        queue_capacity(&self.queue)
    }

    /// Checks if the channel is closed and no message is left, so that a
    /// stream over it has ended.
    pub fn is_terminated(&self) -> (b: bool) {
        let closed = queue_is_closed(&self.queue);
        let empty = queue_is_empty(&self.queue);
        terminated(closed, empty)
    }

    /// Returns the number of live senders.
    pub fn sender_count(&self) -> (n: usize) {
        self.sender_count.load(std::sync::atomic::Ordering::SeqCst)
    }

    /// Returns the number of live receivers.
    pub fn receiver_count(&self) -> (n: usize) {
        self.receiver_count.load(std::sync::atomic::Ordering::SeqCst)
    }

    /// Counts one more sender. Returns `false` when the count before was
    /// past the handle limit: the new handle must then not be used.
    pub fn add_sender(&self) -> (within_limit: bool) {
        let before = self.sender_count.fetch_add(one_handle(), std::sync::atomic::Ordering::Relaxed);
        handle_within_limit(before)
    }

    /// Counts one more receiver. Returns `false` when the count before was
    /// past the handle limit: the new handle must then not be used.
    pub fn add_receiver(&self) -> (within_limit: bool) {
        let before = self.receiver_count.fetch_add(one_handle(), std::sync::atomic::Ordering::Relaxed);
        handle_within_limit(before)
    }

    /// Counts one sender less and closes the channel when it was the last
    /// one. Returns whether it was the last.
    pub fn remove_sender(&self) -> (was_last: bool) {
        let before = self.sender_count.fetch_sub(one_handle(), std::sync::atomic::Ordering::AcqRel);
        let last = is_last_handle(before);
        if last {
            self.close();
        }
        last
    }

    /// Counts one receiver less and closes the channel when it was the last
    /// one. Returns whether it was the last.
    pub fn remove_receiver(&self) -> (was_last: bool) {
        let before = self.receiver_count.fetch_sub(one_handle(), std::sync::atomic::Ordering::AcqRel);
        let last = is_last_handle(before);
        if last {
            self.close();
        }
        last
    }

    /// Registers a listener woken when a message leaves a full queue.
    pub fn listen_send(&self) -> (l: EventListener) {
        self.send_event.listen()
    }

    /// Registers a listener woken when a message arrives.
    pub fn listen_recv(&self) -> (l: EventListener) {
        self.recv_event.listen()
    }

    /// Registers a listener woken on every send and on close.
    pub fn listen_stream(&self) -> (l: EventListener) {
        self.stream_event.listen()
    }
}

/// The count of one handle: each count starts at it, and a new or a
/// released handle adds or subtracts it.
pub fn one_handle() -> (n: usize)
    ensures
        n == 1,
{
    1
}

/// Whether a send wakes waiters: exactly when the message went into the
/// queue, which wakes one more waiting receiver and every stream.
pub fn wakes_after_send<T>(r: &Result<(), TrySendError<T>>) -> (wake: bool)
    ensures
        wake == r is Ok,
{
    r.is_ok()
}

/// Whether a receive wakes waiters: exactly when a message left the queue,
/// which wakes one more waiting sender.
pub fn wakes_after_recv<T>(r: &Result<T, TryRecvError>) -> (wake: bool)
    ensures
        wake == r is Ok,
{
    r.is_ok()
}

/// Whether a handle count read before an increment leaves room for the new
/// handle.
pub fn handle_within_limit(before: usize) -> (ok: bool)
    ensures
        ok == (before <= handle_limit()),
{
    before <= usize::MAX / 2
}

/// Whether a stream over a channel has ended, from what the queue reports:
/// it has ended exactly when the channel is closed and no message is left.
pub fn terminated(closed: bool, empty: bool) -> (b: bool)
    ensures
        b == (closed && empty),
{
    closed && empty
}

/// Whether a handle count read before a decrement shows that the handle
/// being released was the last one.
pub fn is_last_handle(before: usize) -> (last: bool)
    ensures
        last == (before == 1),
{
    before == 1
}

} // verus!
