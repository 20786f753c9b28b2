//! Verified core of an asynchronous multi-producer, multi-consumer channel
//! and of an asynchronous mutex.
//!
//! The channel core wraps a concurrent queue and three event sources; the
//! lock core holds the counter that encodes who holds the lock and how many
//! lock operations are starving. Waiting (blocking or awaiting) is left to the
//! caller: each type here takes one non-blocking step and reports what must
//! happen next.

pub mod error;
pub mod event;
pub mod queue;
pub mod channel;
pub mod waiting;
pub mod lock;
pub mod word;
