# bengal

An asynchronous multi-producer, multi-consumer channel and an asynchronous
mutex, with their decision logic verified by Verus.

- `src/` is the verified library.
  - `error.rs`: the channel's error types, their predicates and texts.
  - `queue.rs`, `event.rs`: the trusted declarations of the outside
    `concurrent-queue` and `event-listener` crates.
  - `channel.rs`: the shared channel core (queue, events, handle counts).
  - `waiting.rs`: the step-by-step states of a send, a receive and a stream
    poll; each step is non-blocking and says what the caller must do next.
  - `lock.rs`: the mutex's lock word, its encoding laws and the atomic steps
    of its fast and starving paths, the slow path's decision function, and
    the laws of mutual exclusion and starving balance.
- `app/` is ordinary Rust on top: the `Sender` and `Receiver` handles (clone
  and drop keep the counts), the `Send` and `Recv` futures, the blocking
  strategy, the `Stream` impl, and the `Mutex` with its guards and data.
- `tests/` runs the library on concrete values.
