//! Errors reported by the channel.

use vstd::prelude::*;

verus! {

/// An error when sending a message: the channel is closed. The message that
/// could not be sent is handed back.
#[derive(PartialEq, Eq, Clone, Copy)]
pub struct SendError<T>(pub T);

impl<T> SendError<T> {
    /// Unwraps the message that couldn't be sent.
    pub fn into_inner(self) -> (msg: T)
        ensures
            msg == self.0,
    {
        self.0
    }

    /// The text shown when the error is displayed.
    pub fn message(&self) -> (text: &'static str)
        ensures
            text@ == "sending into a closed channel"@,
    {
        "sending into a closed channel"
    }

    /// The text shown when the error is debug-formatted; the message itself
    /// is not shown.
    pub fn debug_text(&self) -> (text: &'static str)
        ensures
            text@ == "SendError(..)"@,
    {
        "SendError(..)"
    }
}

/// An error when trying to send a message: the queue is full or the channel
/// is closed. The message that could not be sent is handed back.
#[derive(PartialEq, Eq, Clone, Copy)]
pub enum TrySendError<T> {
    Full(T),
    Closed(T),
}

impl<T> TrySendError<T> {
    /// The message carried by the error.
    pub open spec fn inner(self) -> T {
        match self {
            TrySendError::Full(t) => t,
            TrySendError::Closed(t) => t,
        }
    }

    /// Unwraps the message that couldn't be sent.
    pub fn into_inner(self) -> (msg: T)
        ensures
            msg == self.inner(),
    {
        match self {
            TrySendError::Full(t) => t,
            TrySendError::Closed(t) => t,
        }
    }

    /// Checks if the message queue was full.
    pub fn is_full(&self) -> (b: bool)
        ensures
            b == (*self is Full),
    {
        match self {
            TrySendError::Full(_) => true,
            TrySendError::Closed(_) => false,
        }
    }

    /// Checks if the channel was closed.
    pub fn is_closed(&self) -> (b: bool)
        ensures
            b == (*self is Closed),
    {
        match self {
            TrySendError::Full(_) => false,
            TrySendError::Closed(_) => true,
        }
    }

    /// The text shown when the error is displayed.
    pub fn message(&self) -> (text: &'static str)
        ensures
            *self is Full ==> text@ == "sending into a full channel"@,
            *self is Closed ==> text@ == "sending into a closed channel"@,
    {
        match self {
            TrySendError::Full(_) => "sending into a full channel",
            TrySendError::Closed(_) => "sending into a closed channel",
        }
    }

    /// The text shown when the error is debug-formatted; the message itself
    /// is not shown.
    pub fn debug_text(&self) -> (text: &'static str)
        ensures
            *self is Full ==> text@ == "Full(..)"@,
            *self is Closed ==> text@ == "Closed(..)"@,
    {
        match self {
            TrySendError::Full(_) => "Full(..)",
            TrySendError::Closed(_) => "Closed(..)",
        }
    }
}

/// A refused attempt to send has exactly one reason: the queue was full or
/// the channel was closed, so `is_full` and `is_closed` never agree.
pub proof fn law_try_send_error_has_one_reason<T>(e: TrySendError<T>)
    ensures
        (e is Full) != (e is Closed),
{
}

/// An error when receiving a message: the channel is empty and closed.
#[derive(PartialEq, Eq, Clone, Copy, Debug)]
pub struct RecvError;

impl RecvError {
    /// The text shown when the error is displayed.
    pub fn message(&self) -> (text: &'static str)
        ensures
            text@ == "receiving from an empty and closed channel"@,
    {
        "receiving from an empty and closed channel"
    }
}

/// An error when trying to receive a message: the queue is empty, and the
/// channel may also be closed.
#[derive(PartialEq, Eq, Clone, Copy, Debug)]
pub enum TryRecvError {
    Empty,
    Closed,
}

impl TryRecvError {
    /// Checks if the message queue was empty and the channel still open.
    pub fn is_empty(&self) -> (b: bool)
        ensures
            b == (*self is Empty),
    {
        match self {
            TryRecvError::Empty => true,
            TryRecvError::Closed => false,
        }
    }

    /// Checks if the channel was closed and drained.
    pub fn is_closed(&self) -> (b: bool)
        ensures
            b == (*self is Closed),
    {
        match self {
            TryRecvError::Empty => false,
            TryRecvError::Closed => true,
        }
    }

    /// The text shown when the error is displayed.
    pub fn message(&self) -> (text: &'static str)
        ensures
            *self is Empty ==> text@ == "receiving from an empty channel"@,
            *self is Closed ==> text@ == "receiving from an empty and closed channel"@,
    {
        match self {
            TryRecvError::Empty => "receiving from an empty channel",
            TryRecvError::Closed => "receiving from an empty and closed channel",
        }
    }
}

/// A refused attempt to receive has exactly one reason: the channel was
/// empty and open, or empty and closed, so `is_empty` and `is_closed` never
/// agree.
pub proof fn law_try_recv_error_has_one_reason(e: TryRecvError)
    ensures
        (e is Empty) != (e is Closed),
{
}

} // verus!
