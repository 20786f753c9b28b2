//! The decisions taken while a sender waits for room, a receiver waits for
//! a message, or a receiver is polled as a stream.
//!
//! Each state takes one non-blocking step against the channel and says what
//! must happen next. Waiting on a listener, blocking or awaiting, is left to
//! the caller, which hands the listener back with `park` when the wait has
//! not finished.

use vstd::prelude::*;
use crate::channel::Channel;
use crate::error::{RecvError, SendError, TryRecvError, TrySendError};
use crate::queue::{PopOutcome, PopRecord, PushRecord};
use event_listener::EventListener;

verus! {

/// What a send run must do after a step.
pub enum SendStep<T> {
    /// The run is over with this result.
    Finished(Result<(), SendError<T>>),
    /// A listener was registered: step again at once.
    Retry,
    /// The queue is still full: wait on this listener, then step again.
    Wait(EventListener),
}

/// How one step of a send run may change the pending message, given the
/// pending message `pre` before the step, the step's result `r`, and the
/// pending message `post` after it: a delivered message (`Finished(Ok)`) is
/// no longer pending; a refused one is handed back (`Finished(Err)`) and no
/// longer pending; otherwise the message stays pending, unchanged.
pub open spec fn send_step_keeps<T>(pre: Option<T>, r: SendStep<T>, post: Option<T>) -> bool {
    match r {
        SendStep::Finished(Ok(())) => post is None,
        SendStep::Finished(Err(e)) => pre == Some(e.0) && post is None,
        _ => post == pre,
    }
}

/// A send run of the message `m`, polled any number of times: `states` are
/// the pending messages between steps and `steps` the steps' results, each
/// step taken with a message pending (as `SendState::step` requires) and
/// changing it as `SendState::step` ensures (`send_step_keeps`). Then the
/// run finishes at most once, and only at its last step, so the message is
/// pushed at most once, and a run that ends in `Ok` is one in which it was
/// pushed exactly once; until then the message stays pending, neither
/// dropped nor duplicated; and a run that ends in an error hands back `m`
/// itself, which was then never pushed.
pub proof fn law_send_run<T>(m: T, states: Seq<Option<T>>, steps: Seq<SendStep<T>>)
    requires
        states.len() == steps.len() + 1,
        states[0] == Some(m),
        forall|i: int| 0 <= i < steps.len() ==> (#[trigger] states[i]) is Some,
        forall|i: int|
            0 <= i < steps.len() ==> send_step_keeps(states[i], #[trigger] steps[i], states[i + 1]),
    ensures
        forall|i: int| 0 <= i < steps.len() ==> #[trigger] states[i] == Some(m),
        forall|i: int| 0 <= i < steps.len() && (#[trigger] steps[i]) is Finished ==> i == steps.len() - 1,
        forall|i: int| 0 <= i < steps.len() && !((#[trigger] steps[i]) is Finished) ==> states[i + 1] == Some(m),
        forall|i: int|
            0 <= i < steps.len() ==> ((#[trigger] steps[i]) matches SendStep::Finished(Err(e)) ==> e.0 == m),
{
    lemma_send_run_pending(m, states, steps, steps.len() as int);
    assert forall|i: int| 0 <= i < steps.len() && (#[trigger] steps[i]) is Finished implies i == steps.len() - 1 by {
        if i < steps.len() - 1 {
            assert(states[i + 1] is Some);
        }
    }
    assert forall|i: int| 0 <= i < steps.len() && !((#[trigger] steps[i]) is Finished) implies states[i + 1] == Some(m) by {
        assert(states[i] == Some(m));
    }
    assert forall|i: int| 0 <= i < steps.len() implies ((#[trigger] steps[i]) matches SendStep::Finished(Err(e)) ==> e.0 == m) by {
        assert(states[i] == Some(m));
    }
}

/// Up to step `n`, every state of such a run holds the message `m`.
proof fn lemma_send_run_pending<T>(m: T, states: Seq<Option<T>>, steps: Seq<SendStep<T>>, n: int)
    requires
        states.len() == steps.len() + 1,
        states[0] == Some(m),
        forall|i: int| 0 <= i < steps.len() ==> (#[trigger] states[i]) is Some,
        forall|i: int|
            0 <= i < steps.len() ==> send_step_keeps(states[i], #[trigger] steps[i], states[i + 1]),
        0 <= n <= steps.len(),
    ensures
        forall|i: int| 0 <= i < n ==> #[trigger] states[i] == Some(m),
    decreases n,
{
    if n > 0 {
        lemma_send_run_pending(m, states, steps, n - 1);
        let k = n - 1;
        if k > 0 {
            assert(states[k - 1] == Some(m));
            assert(send_step_keeps(states[k - 1], steps[k - 1], states[k]));
            assert(states[k] is Some);
        }
    }
}

/// Whether a send step's result answers what the queue said to its push:
/// the run ends in `Ok` exactly when the push was taken, ends handing the
/// message back exactly when the queue was closed, and goes on (retrying or
/// waiting) exactly when the queue was full.
pub open spec fn send_step_answers<T>(pushed: Result<(), TrySendError<T>>, r: SendStep<T>) -> bool {
    match pushed {
        Ok(()) => r matches SendStep::Finished(Ok(())),
        Err(TrySendError::Closed(m)) => r matches SendStep::Finished(Err(e)) && e.0 == m,
        Err(TrySendError::Full(_)) => r is Retry || r is Wait,
    }
}

/// Whether a receive step's result answers how its pop came out: the run
/// ends with a message exactly when one was popped, ends with `RecvError`
/// exactly when the queue was closed and drained, and goes on exactly when
/// it was empty and open.
pub open spec fn recv_step_answers<T>(popped: PopOutcome, r: RecvStep<T>) -> bool {
    match popped {
        PopOutcome::Popped => r matches RecvStep::Finished(Ok(_)),
        PopOutcome::Closed => r matches RecvStep::Finished(Err(_)),
        PopOutcome::Empty => r is Retry || r is Wait,
    }
}

/// Whether a stream step's result answers how its pop came out: an item
/// exactly when one was popped, the end exactly when the queue was closed
/// and drained, and going on exactly when it was empty and open.
pub open spec fn stream_step_answers<T>(popped: PopOutcome, r: StreamStep<T>) -> bool {
    match popped {
        PopOutcome::Popped => r is Item,
        PopOutcome::Closed => r is End,
        PopOutcome::Empty => r is Retry || r is Poll,
    }
}

/// A send step reports the message delivered only when its push was taken
/// by the queue, and hands a message back only when the queue said it was
/// closed, handing back the very message refused.
pub proof fn law_send_outcome_follows_push<T>(pushed: Result<(), TrySendError<T>>, r: SendStep<T>)
    requires
        send_step_answers(pushed, r),
    ensures
        r matches SendStep::Finished(Ok(())) ==> pushed is Ok,
        r matches SendStep::Finished(Err(e)) ==> pushed == Err::<(), TrySendError<T>>(
            TrySendError::Closed(e.0),
        ),
        !(r is Finished) ==> pushed matches Err(TrySendError::Full(_)),
{
}

/// A receive step ends with `RecvError` only when its pop found the queue
/// closed and drained, ends with a message only when its pop took one, and
/// goes on only when the queue was empty and open.
pub proof fn law_recv_outcome_follows_pop<T>(popped: PopOutcome, r: RecvStep<T>)
    requires
        recv_step_answers(popped, r),
    ensures
        r matches RecvStep::Finished(Err(_)) ==> popped is Closed,
        r matches RecvStep::Finished(Ok(_)) ==> popped is Popped,
        !(r is Finished) ==> popped is Empty,
{
}

/// A stream step ends the stream only when its pop found the queue closed
/// and drained, yields an item only when its pop took one, and goes on only
/// when the queue was empty and open.
pub proof fn law_stream_outcome_follows_pop<T>(popped: PopOutcome, r: StreamStep<T>)
    requires
        stream_step_answers(popped, r),
    ensures
        r is End ==> popped is Closed,
        r is Item ==> popped is Popped,
        (r is Retry || r is Poll) ==> popped is Empty,
{
}

/// The state of a message being sent: the message not yet delivered and the
/// listener registered for room in the queue.
#[verifier::reject_recursive_types(T)]
pub struct SendState<T> {
    msg: Option<T>,
    listener: Option<EventListener>,
    last_push: Option<PushRecord<T>>,
}

impl<T> SendState<T> {
    /// The message that is still to be sent, if any.
    pub closed spec fn pending(&self) -> Option<T> {
        self.msg
    }

    /// Whether a listener is registered.
    pub closed spec fn listening(&self) -> bool {
        self.listener is Some
    }

    /// The evidence of the last push this run made, if it made one.
    pub closed spec fn last_push(&self) -> Option<PushRecord<T>> {
        self.last_push
    }

    /// Starts sending `msg`, with no listener registered and no push made.
    pub fn new(msg: T) -> (s: Self)
        ensures
            s.pending() == Some(msg),
            !s.listening(),
            s.last_push() is None,
    {
        SendState { msg: Some(msg), listener: None, last_push: None }
    }

    /// Whether a message is still to be sent.
    pub fn has_message(&self) -> (b: bool)
        ensures
            b == self.pending() is Some,
    {
        self.msg.is_some()
    }

    /// Attempts to send the pending message, then decides what comes next
    /// from the outcome of that attempt (see `advance`).
    pub fn step(&mut self, channel: &Channel<T>) -> (r: SendStep<T>)
        requires
            old(self).pending() is Some,
        ensures
            match r {
                SendStep::Finished(Ok(())) => final(self).pending() is None,
                SendStep::Finished(Err(e)) => {
                    &&& e.0 == old(self).pending()->0
                    &&& final(self).pending() is None
                },
                SendStep::Retry => {
                    &&& !old(self).listening()
                    &&& final(self).listening()
                    &&& final(self).pending() == old(self).pending()
                },
                SendStep::Wait(_) => {
                    &&& old(self).listening()
                    &&& !final(self).listening()
                    &&& final(self).pending() == old(self).pending()
                },
            },
            send_step_keeps(old(self).pending(), r, final(self).pending()),
            final(self).last_push() is Some,
            final(self).last_push()->0.value() == old(self).pending()->0,
            send_step_answers(final(self).last_push()->0.outcome(), r),
    {
        let msg = self.msg.take().unwrap();
        let (attempt, record) = channel.try_send_recorded(msg);
        let r = self.advance(channel, attempt);
        self.last_push = Some(record);
        r
    }

    /// Decides what comes next from the outcome of a send attempt: a sent
    /// message or a closed channel end the run; on a full queue the message
    /// is kept, and either a listener is registered and the attempt is
    /// retried, or the registered listener is handed out to be waited on.
    pub fn advance(&mut self, channel: &Channel<T>, attempt: Result<(), TrySendError<T>>) -> (r:
        SendStep<T>)
        requires
            old(self).pending() is None,
        ensures
            match attempt {
                Ok(()) => {
                    &&& r matches SendStep::Finished(Ok(()))
                    &&& final(self).pending() is None
                    &&& final(self).listening() == old(self).listening()
                },
                Err(TrySendError::Closed(m)) => {
                    &&& r matches SendStep::Finished(Err(e)) && e.0 == m
                    &&& final(self).pending() is None
                    &&& final(self).listening() == old(self).listening()
                },
                Err(TrySendError::Full(m)) => {
                    &&& final(self).pending() == Some(m)
                    &&& !old(self).listening() ==> (r is Retry && final(self).listening())
                    &&& old(self).listening() ==> (r is Wait && !final(self).listening())
                },
            },
            final(self).last_push() == old(self).last_push(),
    {
        match attempt {
            Ok(()) => SendStep::Finished(Ok(())),
            Err(TrySendError::Closed(m)) => SendStep::Finished(Err(SendError(m))),
            Err(TrySendError::Full(m)) => {
                self.msg = Some(m);
                match self.listener.take() {
                    None => {
                        self.listener = Some(channel.listen_send());
                        SendStep::Retry
                    },
                    Some(l) => SendStep::Wait(l),
                }
            },
        }
    }

    /// Keeps a listener whose wait has not finished.
    pub fn park(&mut self, listener: EventListener)
        ensures
            final(self).listening(),
            final(self).pending() == old(self).pending(),
            final(self).last_push() == old(self).last_push(),
    {
        self.listener = Some(listener);
    }
}

/// What a receive run must do after a step.
pub enum RecvStep<T> {
    /// The run is over with this result.
    Finished(Result<T, RecvError>),
    /// A listener was registered: step again at once.
    Retry,
    /// The queue is still empty: wait on this listener, then step again.
    Wait(EventListener),
}

/// The state of a receive in progress: the listener registered for new
/// messages.
pub struct RecvState {
    listener: Option<EventListener>,
    last_pop: Option<PopRecord>,
}

impl RecvState {
    /// Whether a listener is registered.
    pub closed spec fn listening(&self) -> bool {
        self.listener is Some
    }

    /// The evidence of the last pop this receive made, if it made one.
    pub closed spec fn last_pop(&self) -> Option<PopRecord> {
        self.last_pop
    }

    /// Starts receiving, with no listener registered and no pop made.
    pub fn new() -> (s: Self)
        ensures
            !s.listening(),
            s.last_pop() is None,
    {
        RecvState { listener: None, last_pop: None }
    }

    /// Attempts to receive a message, then decides what comes next from the
    /// outcome of that attempt (see `advance`).
    pub fn step<T>(&mut self, channel: &Channel<T>) -> (r: RecvStep<T>)
        ensures
            r is Retry ==> !old(self).listening() && final(self).listening(),
            r is Wait ==> old(self).listening() && !final(self).listening(),
            r is Finished ==> final(self).listening() == old(self).listening(),
            final(self).last_pop() is Some,
            recv_step_answers(final(self).last_pop()->0.outcome(), r),
    {
        let (attempt, record) = channel.try_recv_recorded();
        let r = self.advance(channel, attempt);
        self.last_pop = Some(record);
        r
    }

    /// Decides what comes next from the outcome of a receive attempt: a
    /// message or a closed, drained channel end the run; on an empty queue
    /// either a listener is registered and the attempt is retried, or the
    /// registered listener is handed out to be waited on.
    pub fn advance<T>(&mut self, channel: &Channel<T>, attempt: Result<T, TryRecvError>) -> (r:
        RecvStep<T>)
        ensures
            match attempt {
                Ok(m) => {
                    &&& r matches RecvStep::Finished(Ok(v)) && v == m
                    &&& final(self).listening() == old(self).listening()
                },
                Err(TryRecvError::Closed) => {
                    &&& r matches RecvStep::Finished(Err(RecvError))
                    &&& final(self).listening() == old(self).listening()
                },
                Err(TryRecvError::Empty) => {
                    &&& !old(self).listening() ==> (r is Retry && final(self).listening())
                    &&& old(self).listening() ==> (r is Wait && !final(self).listening())
                },
            },
    {
        match attempt {
            Ok(m) => RecvStep::Finished(Ok(m)),
            Err(TryRecvError::Closed) => RecvStep::Finished(Err(RecvError)),
            Err(TryRecvError::Empty) => {
                match self.listener.take() {
                    None => {
                        self.listener = Some(channel.listen_recv());
                        RecvStep::Retry
                    },
                    Some(l) => RecvStep::Wait(l),
                }
            },
        }
    }

    /// Keeps a listener whose wait has not finished.
    pub fn park(&mut self, listener: EventListener)
        ensures
            final(self).listening(),
    {
        self.listener = Some(listener);
    }
}

/// What polling a receiver as a stream must do after a step.
pub enum StreamStep<T> {
    /// The next item of the stream.
    Item(T),
    /// The channel is closed and drained: the stream has ended.
    End,
    /// A listener was registered: step again at once.
    Retry,
    /// The queue is still empty: poll the registered listener.
    Poll,
}

/// The listener a receiver keeps between polls as a stream.
pub struct StreamState {
    listener: Option<EventListener>,
    last_pop: Option<PopRecord>,
}

impl StreamState {
    /// Whether a listener is registered.
    pub closed spec fn listening(&self) -> bool {
        self.listener is Some
    }

    /// The evidence of the last pop this stream made, if it made one.
    pub closed spec fn last_pop(&self) -> Option<PopRecord> {
        self.last_pop
    }

    /// A stream state with no listener registered and no pop made.
    pub fn new() -> (s: Self)
        ensures
            !s.listening(),
            s.last_pop() is None,
    {
        StreamState { listener: None, last_pop: None }
    }

    /// Attempts to receive a message, then decides what comes next from the
    /// outcome of that attempt (see `advance`).
    pub fn step<T>(&mut self, channel: &Channel<T>) -> (r: StreamStep<T>)
        ensures
            r is Item ==> !final(self).listening(),
            r is End ==> !final(self).listening(),
            r is Retry ==> !old(self).listening() && final(self).listening(),
            r is Poll ==> old(self).listening() && final(self).listening(),
            final(self).last_pop() is Some,
            stream_step_answers(final(self).last_pop()->0.outcome(), r),
    {
        let (attempt, record) = channel.try_recv_recorded();
        let r = self.advance(channel, attempt);
        self.last_pop = Some(record);
        r
    }

    /// Decides what comes next from the outcome of a receive attempt: a
    /// message is the next item and a closed, drained channel ends the
    /// stream, both dropping the listener; on an empty queue either a
    /// listener is registered and the attempt is retried, or the registered
    /// listener, which is kept, must be polled.
    pub fn advance<T>(&mut self, channel: &Channel<T>, attempt: Result<T, TryRecvError>) -> (r:
        StreamStep<T>)
        ensures
            match attempt {
                Ok(m) => (r matches StreamStep::Item(v) && v == m) && !final(self).listening(),
                Err(TryRecvError::Closed) => r is End && !final(self).listening(),
                Err(TryRecvError::Empty) => {
                    &&& !old(self).listening() ==> r is Retry
                    &&& old(self).listening() ==> r is Poll
                    &&& final(self).listening()
                },
            },
    {
        match attempt {
            Ok(m) => {
                self.listener = None;
                StreamStep::Item(m)
            },
            Err(TryRecvError::Closed) => {
                self.listener = None;
                StreamStep::End
            },
            Err(TryRecvError::Empty) => {
                if self.listener.is_none() {
                    self.listener = Some(channel.listen_stream());
                    StreamStep::Retry
                } else {
                    StreamStep::Poll
                }
            },
        }
    }

    /// Takes out the registered listener to poll it.
    pub fn take_listener(&mut self) -> (l: Option<EventListener>)
        ensures
            l is Some == old(self).listening(),
            !final(self).listening(),
    {
        self.listener.take()
    }

    /// Keeps a listener whose poll has not finished.
    pub fn park(&mut self, listener: EventListener)
        ensures
            final(self).listening(),
    {
        self.listener = Some(listener);
    }
}

} // verus!
