//! The core of an asynchronous mutex: one counter word and one event source.
//!
//! The word encodes two things. Its lowest bit is set while the lock is
//! held; the rest counts the lock operations that are starving, that is,
//! that waited too long and now queue up for the lock in order. So `0` and
//! `2` mean "free" and `1` and `3` "held", with none or one operation
//! starving. Each function here does one atomic operation on the word, with
//! operands taken from verified functions that state their meaning in this
//! encoding, and says, as a decision, what the caller must do next; awaiting
//! a listener is left to the caller. `law_mutual_exclusion` shows, over a
//! model of these operations, that at most one operation holds the lock, and
//! `law_slow_path_joins_once` that a slow path counts itself as starving at
//! most once.

use vstd::prelude::*;
use event_listener::{Event, EventListener};
use std::sync::atomic::AtomicUsize;
use crate::event::{notify_recorded, Notified};
use crate::word::{subtract_release, Subtracted};

verus! {

/// Whether a lock word says that the lock is held.
pub open spec fn is_held(word: int) -> bool {
    word % 2 == 1
}

/// How many lock operations a lock word says are starving.
pub open spec fn starving(word: int) -> int {
    word / 2
}

/// The outcome of an attempt to take the lock while nobody is starving.
pub enum FastAttempt {
    /// The lock was free and nobody starving: it is now held by the caller.
    Acquired,
    /// The lock is held and nobody is starving: wait and try again.
    Held,
    /// Some operation is starving: join the starving operations.
    Starving,
}

/// The outcome of an attempt to take the lock as a starving operation.
pub enum StarvedAttempt {
    /// The lock was free and the caller the only starving operation: it is
    /// now held by the caller.
    Acquired,
    /// The lock is held: wait and try again.
    Held,
    /// The lock is free but other operations are starving too: one of them
    /// was woken; wait and try again.
    Available,
}

/// Reads the word seen by an attempt to change it from `0` (free, nobody
/// starving) to `1` (held, nobody starving).
pub fn classify_fast(observed: usize) -> (r: FastAttempt)
    ensures
        r is Acquired <==> !is_held(observed as int) && starving(observed as int) == 0,
        r is Held <==> is_held(observed as int) && starving(observed as int) == 0,
        r is Starving <==> starving(observed as int) > 0,
        r is Acquired <==> acquires(WordOp::FastExchange, observed as int),
{
    if observed == 0 {
        FastAttempt::Acquired
    } else if observed == 1 {
        FastAttempt::Held
    } else {
        FastAttempt::Starving
    }
}

/// Reads the word seen by an attempt to change it from `2` (free, one
/// operation starving) to `3` (held, one operation starving).
pub fn classify_starved(observed: usize) -> (r: StarvedAttempt)
    ensures
        r is Acquired <==> !is_held(observed as int) && starving(observed as int) == 1,
        r is Held <==> is_held(observed as int),
        r is Available <==> !is_held(observed as int) && starving(observed as int) != 1,
        r is Acquired <==> acquires(WordOp::StarvedExchange, observed as int),
{
    if observed == 2 {
        StarvedAttempt::Acquired
    } else if observed % 2 == 1 {
        StarvedAttempt::Held
    } else {
        StarvedAttempt::Available
    }
}

/// Reads the word seen by setting the held bit: the lock was taken by the
/// caller exactly when the bit was clear before.
pub fn grab_succeeded(previous: usize) -> (taken: bool)
    ensures
        taken == !is_held(previous as int),
        taken == acquires(WordOp::Grab, previous as int),
{
    previous % 2 == 0
}

/// Whether a word read before one more operation starts starving leaves
/// room for it.
pub fn starving_within_limit(previous: usize) -> (ok: bool)
    ensures
        ok == (previous <= usize::MAX / 2),
{
    previous <= usize::MAX / 2
}

/// The two phases of the slow path of taking the lock.
pub enum SlowPhase {
    /// Waiting for the lock while nobody is starving.
    Fast,
    /// Queued up as a starving operation.
    Starving,
}

/// What the slow path observed at its current point.
pub enum SlowEvent {
    /// The outcome of the first attempt of a round of the fast phase, made
    /// right after registering a listener.
    Attempted(FastAttempt),
    /// The outcome of the attempt of the fast phase made after a wait.
    Rechecked(FastAttempt),
    /// The outcome of the first attempt of a round of the starving phase.
    AttemptedStarved(StarvedAttempt),
    /// Whether setting the held bit after a wait of the starving phase took
    /// the lock.
    Grabbed(bool),
}

/// What the slow path must do next.
pub enum SlowAction {
    /// The lock is held by the caller: stop.
    Done,
    /// Wait on the listener registered in this round.
    Wait,
    /// Start a new round of the same phase, registering a new listener.
    NextRound,
    /// Count the caller as starving and go on in the starving phase.
    JoinStarving,
}

/// The decision of the slow path: from what it observed, and whether it has
/// waited longer than its budget in the fast phase, the action it takes and
/// the phase it is in afterwards. An attempt that took the lock ends the
/// path; a held lock is waited for; in the fast phase, a starving operation,
/// or a held lock after a wait once the budget is spent, makes the caller
/// join the starving operations; a starving operation waits after every
/// failed first attempt and starts a new round after a failed grab.
pub fn slow_path_next(event: SlowEvent, timed_out: bool) -> (r: (SlowAction, SlowPhase))
    ensures
        r == slow_next_spec(event, timed_out),
        match event {
            SlowEvent::Attempted(FastAttempt::Acquired) => r.0 is Done,
            SlowEvent::Attempted(FastAttempt::Held) => r.0 is Wait && r.1 is Fast,
            SlowEvent::Attempted(FastAttempt::Starving) => r.0 is JoinStarving,
            SlowEvent::Rechecked(FastAttempt::Acquired) => r.0 is Done,
            SlowEvent::Rechecked(FastAttempt::Held) => {
                &&& timed_out ==> r.0 is JoinStarving
                &&& !timed_out ==> (r.0 is NextRound && r.1 is Fast)
            },
            SlowEvent::Rechecked(FastAttempt::Starving) => r.0 is JoinStarving,
            SlowEvent::AttemptedStarved(StarvedAttempt::Acquired) => r.0 is Done,
            SlowEvent::AttemptedStarved(_) => r.0 is Wait,
            SlowEvent::Grabbed(taken) => {
                &&& taken ==> r.0 is Done
                &&& !taken ==> r.0 is NextRound
            },
        },
        r.0 is JoinStarving ==> r.1 is Starving,
        (event is AttemptedStarved || event is Grabbed) ==> r.1 is Starving,
        (event is Attempted || event is Rechecked) && !(r.0 is JoinStarving) ==> r.1 is Fast,
{
    match event {
        SlowEvent::Attempted(a) => match a {
            FastAttempt::Acquired => (SlowAction::Done, SlowPhase::Fast),
            FastAttempt::Held => (SlowAction::Wait, SlowPhase::Fast),
            FastAttempt::Starving => (SlowAction::JoinStarving, SlowPhase::Starving),
        },
        SlowEvent::Rechecked(a) => match a {
            FastAttempt::Acquired => (SlowAction::Done, SlowPhase::Fast),
            FastAttempt::Held => {
                if timed_out {
                    (SlowAction::JoinStarving, SlowPhase::Starving)
                } else {
                    (SlowAction::NextRound, SlowPhase::Fast)
                }
            },
            FastAttempt::Starving => (SlowAction::JoinStarving, SlowPhase::Starving),
        },
        SlowEvent::AttemptedStarved(a) => match a {
            StarvedAttempt::Acquired => (SlowAction::Done, SlowPhase::Starving),
            StarvedAttempt::Held => (SlowAction::Wait, SlowPhase::Starving),
            StarvedAttempt::Available => (SlowAction::Wait, SlowPhase::Starving),
        },
        SlowEvent::Grabbed(taken) => {
            if taken {
                (SlowAction::Done, SlowPhase::Starving)
            } else {
                (SlowAction::NextRound, SlowPhase::Starving)
            }
        },
    }
}

/// Whether an attempt of the fast phase made after a wait passes its
/// wake-up on to one more listener: exactly when some operation is
/// starving, so that the wake-up is not lost to the starving operations.
pub fn passes_wakeup(r: &FastAttempt) -> (wake: bool)
    ensures
        wake == (*r is Starving),
{
    match r {
        FastAttempt::Starving => true,
        _ => false,
    }
}

/// Whether a starving attempt wakes one more listener: exactly when the
/// lock is free but taken by none of the attempts, because others are
/// starving too.
pub fn wakes_another(r: &StarvedAttempt) -> (wake: bool)
    ensures
        wake == (*r is Available),
{
    match r {
        StarvedAttempt::Available => true,
        _ => false,
    }
}

/// The decision table of the slow path (see `slow_path_next`).
pub open spec fn slow_next_spec(event: SlowEvent, timed_out: bool) -> (SlowAction, SlowPhase) {
    match event {
        SlowEvent::Attempted(FastAttempt::Acquired) => (SlowAction::Done, SlowPhase::Fast),
        SlowEvent::Attempted(FastAttempt::Held) => (SlowAction::Wait, SlowPhase::Fast),
        SlowEvent::Attempted(FastAttempt::Starving) => (SlowAction::JoinStarving, SlowPhase::Starving),
        SlowEvent::Rechecked(FastAttempt::Acquired) => (SlowAction::Done, SlowPhase::Fast),
        SlowEvent::Rechecked(FastAttempt::Held) => if timed_out {
            (SlowAction::JoinStarving, SlowPhase::Starving)
        } else {
            (SlowAction::NextRound, SlowPhase::Fast)
        },
        SlowEvent::Rechecked(FastAttempt::Starving) => (SlowAction::JoinStarving, SlowPhase::Starving),
        SlowEvent::AttemptedStarved(StarvedAttempt::Acquired) => (SlowAction::Done, SlowPhase::Starving),
        SlowEvent::AttemptedStarved(_) => (SlowAction::Wait, SlowPhase::Starving),
        SlowEvent::Grabbed(taken) => if taken {
            (SlowAction::Done, SlowPhase::Starving)
        } else {
            (SlowAction::NextRound, SlowPhase::Starving)
        },
    }
}

/// Whether an event is one observed in a phase: the fast attempts in the
/// fast phase, the starving attempts and grabs in the starving phase.
pub open spec fn event_fits(phase: SlowPhase, event: SlowEvent) -> bool {
    match phase {
        SlowPhase::Fast => event is Attempted || event is Rechecked,
        SlowPhase::Starving => event is AttemptedStarved || event is Grabbed,
    }
}

/// Starving balance: a slow path that starts in the fast phase and moves
/// from phase to phase as `slow_path_next` says joins the starving
/// operations at most once, only from the fast phase, and once starving it
/// stays starving. So it adds `starving_delta()` at most once, and the one
/// subtraction when it ends balances it.
pub proof fn law_slow_path_joins_once(
    events: Seq<SlowEvent>,
    timeouts: Seq<bool>,
    phases: Seq<SlowPhase>,
)
    requires
        timeouts.len() == events.len(),
        phases.len() == events.len() + 1,
        phases[0] is Fast,
        forall|i: int|
            0 <= i < events.len() ==> event_fits(phases[i], #[trigger] events[i]) && phases[i + 1]
                == slow_next_spec(events[i], timeouts[i]).1,
    ensures
        forall|i: int|
            0 <= i < events.len() && (slow_next_spec(#[trigger] events[i], timeouts[i]).0 is JoinStarving)
                ==> phases[i] is Fast && phases[i + 1] is Starving,
        forall|i: int, j: int|
            0 <= i <= j <= events.len() && (#[trigger] phases[i]) is Starving ==> (
            #[trigger] phases[j]) is Starving,
        forall|i: int, j: int|
            0 <= i < j < events.len() && (slow_next_spec(#[trigger] events[i], timeouts[i]).0 is JoinStarving)
                ==> !(slow_next_spec(#[trigger] events[j], timeouts[j]).0 is JoinStarving),
{
    assert forall|i: int, j: int|
        0 <= i <= j <= events.len() && (#[trigger] phases[i]) is Starving implies (
        #[trigger] phases[j]) is Starving by {
        lemma_stays_starving(events, timeouts, phases, i, j);
    }
    assert forall|i: int, j: int|
        0 <= i < j < events.len() && (slow_next_spec(#[trigger] events[i], timeouts[i]).0 is JoinStarving)
        implies !(slow_next_spec(#[trigger] events[j], timeouts[j]).0 is JoinStarving) by {
        assert(event_fits(phases[i], events[i]));
        assert(phases[i + 1] is Starving);
        lemma_stays_starving(events, timeouts, phases, i + 1, j);
        assert(event_fits(phases[j], events[j]));
    }
}

/// Once in the starving phase, a slow path stays there.
proof fn lemma_stays_starving(
    events: Seq<SlowEvent>,
    timeouts: Seq<bool>,
    phases: Seq<SlowPhase>,
    i: int,
    j: int,
)
    requires
        timeouts.len() == events.len(),
        phases.len() == events.len() + 1,
        forall|k: int|
            0 <= k < events.len() ==> event_fits(phases[k], #[trigger] events[k]) && phases[k + 1]
                == slow_next_spec(events[k], timeouts[k]).1,
        0 <= i <= j <= events.len(),
        phases[i] is Starving,
    ensures
        phases[j] is Starving,
    decreases j - i,
{
    if i < j {
        assert(event_fits(phases[i], events[i]));
        lemma_stays_starving(events, timeouts, phases, i + 1, j);
    }
}

/// The four words that the exchanges of the lock compare with and write
/// mean what the encoding says: `0` free and `1` held with nobody starving,
/// `2` free and `3` held with one operation starving.
pub proof fn law_exchanged_words()
    ensures
        !is_held(0) && starving(0) == 0,
        is_held(1) && starving(1) == 0,
        !is_held(2) && starving(2) == 1,
        is_held(3) && starving(3) == 1,
{
}

/// A word is made of its held bit and its count of starving operations.
pub proof fn law_word_decomposes(word: int)
    requires
        word >= 0,
    ensures
        word == 2 * starving(word) + (if is_held(word) { 1int } else { 0int }),
        starving(word) >= 0,
{
}

/// Releasing a held lock (subtracting one) clears the held bit and keeps
/// the count of starving operations.
pub proof fn law_release(word: int)
    requires
        word >= 0,
        is_held(word),
    ensures
        !is_held(word - 1),
        starving(word - 1) == starving(word),
{
}

/// Starting to starve (adding two) counts one more starving operation and
/// keeps the held bit.
pub proof fn law_starve_enter(word: int)
    requires
        word >= 0,
    ensures
        is_held(word + 2) == is_held(word),
        starving(word + 2) == starving(word) + 1,
{
}

/// Ending a starving operation (subtracting two) counts one starving
/// operation less and keeps the held bit.
pub proof fn law_starve_exit(word: int)
    requires
        word >= 0,
        starving(word) >= 1,
    ensures
        is_held(word - 2) == is_held(word),
        starving(word - 2) == starving(word) - 1,
{
}

/// Setting the held bit of a word leaves it held and keeps the count of
/// starving operations.
pub proof fn law_grab(word: usize)
    ensures
        is_held((word | 1) as int),
        starving((word | 1) as int) == starving(word as int),
{
    assert((word | 1) % 2 == 1 && (word | 1) / 2 == word / 2) by (bit_vector);
}

/// The words a fast exchange compares with and writes: free and held, with
/// nobody starving.
pub open spec fn fast_words() -> (int, int) {
    (0, 1)
}

/// The words a starving exchange compares with and writes: free and held,
/// with one operation starving.
pub open spec fn starved_words() -> (int, int) {
    (2, 3)
}

/// What a release subtracts from the word.
pub open spec fn release_delta() -> int {
    1
}

/// What starting or ending a starving operation adds to or subtracts from
/// the word.
pub open spec fn starving_delta() -> int {
    2
}

/// The word a new lock starts from: free, nobody starving.
pub fn initial_word() -> (w: usize)
    ensures
        w as int == initial_lock().word,
        !is_held(w as int) && starving(w as int) == 0,
{
    0
}

/// The words handed to the fast exchange `0 -> 1`.
pub fn fast_exchange() -> (r: (usize, usize))
    ensures
        r.0 as int == fast_words().0 && r.1 as int == fast_words().1,
        !is_held(r.0 as int) && starving(r.0 as int) == 0,
        is_held(r.1 as int) && starving(r.1 as int) == 0,
{
    proof {
        law_exchanged_words();
    }
    (0, 1)
}

/// The words handed to the starving exchange `2 -> 3`.
pub fn starved_exchange() -> (r: (usize, usize))
    ensures
        r.0 as int == starved_words().0 && r.1 as int == starved_words().1,
        !is_held(r.0 as int) && starving(r.0 as int) == 1,
        is_held(r.1 as int) && starving(r.1 as int) == 1,
{
    proof {
        law_exchanged_words();
    }
    (2, 3)
}

/// The bit set to take the lock without waiting: or-ing it into any word
/// makes it held and keeps the count of starving operations, and changes a
/// free word by adding one.
pub fn held_bit() -> (b: usize)
    ensures
        b == 1,
        forall|w: usize|
            #![trigger (w | b)]
            is_held((w | b) as int) && starving((w | b) as int) == starving(w as int),
        forall|w: usize|
            #![trigger (w | b)]
            (w | b) as int == if is_held(w as int) { w as int } else { w + 1 },
{
    let b: usize = 1;
    proof {
        assert forall|w: usize|
            #![trigger (w | b)]
            is_held((w | b) as int) && starving((w | b) as int) == starving(w as int) by {
            law_grab(w);
        }
        assert forall|w: usize|
            #![trigger (w | b)]
            (w | b) as int == if is_held(w as int) { w as int } else { w + 1 } by {
            law_grab(w);
        }
    }
    b
}

/// What a release subtracts: taking it from a held word clears the held
/// bit and keeps the count of starving operations.
pub fn release_step() -> (d: usize)
    ensures
        d as int == release_delta(),
        forall|w: int|
            #![trigger is_held(w)]
            w >= 0 && is_held(w) ==> !is_held(w - d) && starving(w - d) == starving(w),
{
    proof {
        assert forall|w: int| #![trigger is_held(w)] w >= 0 && is_held(w) implies !is_held(w - 1)
            && starving(w - 1) == starving(w) by {
            law_release(w);
        }
    }
    1
}

/// What starting or ending a starving operation adds or subtracts: it
/// counts one starving operation more or less and keeps the held bit.
pub fn starving_step() -> (d: usize)
    ensures
        d as int == starving_delta(),
        forall|w: int|
            #![trigger starving(w)]
            w >= 0 ==> is_held(w + d) == is_held(w) && starving(w + d) == starving(w) + 1,
        forall|w: int|
            #![trigger starving(w)]
            w >= 0 && starving(w) >= 1 ==> is_held(w - d) == is_held(w) && starving(w - d)
                == starving(w) - 1,
{
    proof {
        assert forall|w: int| #![trigger starving(w)] w >= 0 implies is_held(w + 2) == is_held(w)
            && starving(w + 2) == starving(w) + 1 by {
            law_starve_enter(w);
        }
        assert forall|w: int| #![trigger starving(w)] w >= 0 && starving(w) >= 1 implies is_held(
            w - 2,
        ) == is_held(w) && starving(w - 2) == starving(w) - 1 by {
            law_starve_exit(w);
        }
    }
    2
}

/// The operations that the lock steps perform on the word.
pub enum WordOp {
    /// The exchange `fast_words()` (`try_acquire`, `attempt_fast`).
    FastExchange,
    /// The exchange `starved_words()` (`attempt_starved`).
    StarvedExchange,
    /// Setting the held bit (`grab`).
    Grab,
    /// Subtracting `release_delta()` (`release`), done by the holder.
    Release,
    /// Adding `starving_delta()` (`begin_starving`).
    StarveEnter,
    /// Subtracting `starving_delta()` (`end_starving`), done by a starving
    /// operation.
    StarveExit,
}

/// A lock word together with who acts on it: how many operations hold the
/// lock and how many are starving.
pub struct LockState {
    pub word: int,
    pub holders: int,
    pub starvers: int,
}

/// The word describes the holders and starving operations, and at most one
/// operation holds the lock.
pub open spec fn lock_inv(s: LockState) -> bool {
    &&& 0 <= s.holders <= 1
    &&& s.starvers >= 0
    &&& s.word == 2 * s.starvers + s.holders
}

/// A new lock: word `0`, nobody holding, nobody starving.
pub open spec fn initial_lock() -> LockState {
    LockState { word: 0, holders: 0, starvers: 0 }
}

/// Whether an operation on a word takes the lock: an exchange whose
/// compared word is there, or setting the held bit of a free word.
pub open spec fn acquires(op: WordOp, word: int) -> bool {
    match op {
        WordOp::FastExchange => word == fast_words().0,
        WordOp::StarvedExchange => word == starved_words().0,
        WordOp::Grab => !is_held(word),
        _ => false,
    }
}

/// The word after an operation.
pub open spec fn word_after(op: WordOp, word: int) -> int {
    match op {
        WordOp::FastExchange => if word == fast_words().0 { fast_words().1 } else { word },
        WordOp::StarvedExchange => if word == starved_words().0 {
            starved_words().1
        } else {
            word
        },
        WordOp::Grab => if is_held(word) { word } else { word + 1 },
        WordOp::Release => word - release_delta(),
        WordOp::StarveEnter => word + starving_delta(),
        WordOp::StarveExit => word - starving_delta(),
    }
}

/// Who may perform an operation: only the holder releases, and only a
/// starving operation stops starving.
pub open spec fn op_allowed(op: WordOp, s: LockState) -> bool {
    match op {
        WordOp::Release => s.holders == 1,
        WordOp::StarveExit => s.starvers >= 1,
        _ => true,
    }
}

/// The lock after an operation.
pub open spec fn apply_op(op: WordOp, s: LockState) -> LockState {
    LockState {
        word: word_after(op, s.word),
        holders: if acquires(op, s.word) {
            s.holders + 1
        } else if op is Release {
            s.holders - 1
        } else {
            s.holders
        },
        starvers: match op {
            WordOp::StarveEnter => s.starvers + 1,
            WordOp::StarveExit => s.starvers - 1,
            _ => s.starvers,
        },
    }
}

/// The lock after a sequence of operations on a new lock.
pub open spec fn run_ops(ops: Seq<WordOp>) -> LockState
    decreases ops.len(),
{
    if ops.len() == 0 {
        initial_lock()
    } else {
        apply_op(ops.last(), run_ops(ops.drop_last()))
    }
}

/// Every operation keeps the lock's invariant, and takes the lock only when
/// nobody holds it.
pub proof fn law_lock_step(op: WordOp, s: LockState)
    requires
        lock_inv(s),
        op_allowed(op, s),
    ensures
        lock_inv(apply_op(op, s)),
        acquires(op, s.word) ==> s.holders == 0,
{
}

/// Mutual exclusion: in any sequence of operations on a new lock, where
/// only the holder releases and only starving operations stop starving, at
/// every point at most one operation holds the lock, the word describes the
/// holder and the starving operations, and the lock is taken only when
/// nobody holds it.
pub proof fn law_mutual_exclusion(ops: Seq<WordOp>)
    requires
        forall|i: int| 0 <= i < ops.len() ==> op_allowed(#[trigger] ops[i], run_ops(ops.take(i))),
    ensures
        lock_inv(run_ops(ops)),
        forall|i: int|
            0 <= i <= ops.len() ==> lock_inv(#[trigger] run_ops(ops.take(i))) && run_ops(
                ops.take(i),
            ).holders <= 1,
        forall|i: int|
            0 <= i < ops.len() && acquires(#[trigger] ops[i], run_ops(ops.take(i)).word)
                ==> run_ops(ops.take(i)).holders == 0,
{
    assert forall|i: int| 0 <= i <= ops.len() implies lock_inv(#[trigger] run_ops(ops.take(i)))
        && run_ops(ops.take(i)).holders <= 1 by {
        lemma_run_inv(ops, i);
    }
    lemma_run_inv(ops, ops.len() as int);
    assert(ops.take(ops.len() as int) =~= ops);
    assert forall|i: int|
        0 <= i < ops.len() && acquires(#[trigger] ops[i], run_ops(ops.take(i)).word)
        implies run_ops(ops.take(i)).holders == 0 by {
        law_lock_step(ops[i], run_ops(ops.take(i)));
    }
}

/// Every prefix of `n` operations keeps the invariant.
proof fn lemma_run_inv(ops: Seq<WordOp>, n: int)
    requires
        forall|i: int| 0 <= i < ops.len() ==> op_allowed(#[trigger] ops[i], run_ops(ops.take(i))),
        0 <= n <= ops.len(),
    ensures
        lock_inv(run_ops(ops.take(n))),
    decreases n,
{
    if n == 0 {
        assert(ops.take(0) =~= Seq::<WordOp>::empty());
    } else {
        let k = n - 1;
        lemma_run_inv(ops, k);
        let pre = ops.take(k);
        assert(ops.take(n).drop_last() =~= pre);
        assert(ops.take(n).last() == ops[k]);
        assert(op_allowed(ops[k], run_ops(pre)));
        law_lock_step(ops[k], run_ops(pre));
    }
}

/// The counter word of a mutex and the event source notified when it is
/// unlocked.
pub struct LockCore {
    /// The lock word, see the module's documentation.
    state: AtomicUsize,
    /// Notified when the mutex is unlocked.
    lock_event: Event,
}

impl LockCore {
    /// A free lock with nobody starving.
    pub fn new() -> (core: LockCore) {
        LockCore { state: AtomicUsize::new(initial_word()), lock_event: Event::new() }
    }

    /// Attempts to take a free lock while nobody is starving: changes the
    /// word from `0` to `1`. Returns whether the change was made.
    pub fn try_acquire(&self) -> (acquired: bool) {
        let (current, new) = fast_exchange();
        let r = self.state.compare_exchange(
            current,
            new,
            std::sync::atomic::Ordering::Acquire,
            std::sync::atomic::Ordering::Acquire,
        );
        r.is_ok()
    }

    /// The word of this lock.
    pub closed spec fn word_cell(&self) -> AtomicUsize {
        self.state
    }

    /// The event notified when this lock is released.
    pub closed spec fn wake_event(&self) -> Event {
        self.lock_event
    }

    /// Releases a held lock: subtracts `release_delta()` from the word,
    /// which clears the held bit (see `release_step`), and then wakes one
    /// waiting lock operation. Hands back the evidence of both.
    pub fn release(&self) -> (r: (Subtracted, Notified))
        ensures
            r.0.word() == self.word_cell(),
            r.0.amount() as int == release_delta(),
            r.1.event() == self.wake_event(),
            r.1.count() == 1,
    {
        let (_, cleared) = subtract_release(&self.state, release_step());
        let woken = notify_recorded(&self.lock_event, 1);
        (cleared, woken)
    }

    /// Registers a listener woken when the lock is released.
    pub fn listen(&self) -> (l: EventListener) {
        self.lock_event.listen()
    }

    /// Attempts to change the word from `0` to `1` and reports what the
    /// word was (see `classify_fast`).
    pub fn attempt_fast(&self) -> (r: FastAttempt) {
        let (current, new) = fast_exchange();
        let observed = match self.state.compare_exchange(
            current,
            new,
            std::sync::atomic::Ordering::Acquire,
            std::sync::atomic::Ordering::Acquire,
        ) {
            Ok(x) => x,
            Err(x) => x,
        };
        classify_fast(observed)
    }

    /// As `attempt_fast`, after a wait: when some operation is starving the
    /// wake-up that reached this one is passed on to one more listener.
    pub fn attempt_fast_after_wait(&self) -> (r: FastAttempt) {
        let r = self.attempt_fast();
        if passes_wakeup(&r) {
            self.lock_event.notify(1);
        }
        r
    }

    /// Counts the caller as one more starving operation. Returns `false`
    /// when the word before was past half its range: the count could then
    /// wrap around and the caller must not go on.
    pub fn begin_starving(&self) -> (within_limit: bool) {
        let previous = self.state.fetch_add(starving_step(), std::sync::atomic::Ordering::Release);
        starving_within_limit(previous)
    }

    /// Counts one starving operation less.
    pub fn end_starving(&self) {
        self.state.fetch_sub(starving_step(), std::sync::atomic::Ordering::Release);
    }

    /// Attempts, as a starving operation, to change the word from `2` to
    /// `3` and reports what the word was (see `classify_starved`); when the
    /// lock is free but others are starving too, one more listener is woken.
    pub fn attempt_starved(&self) -> (r: StarvedAttempt) {
        let (current, new) = starved_exchange();
        let observed = match self.state.compare_exchange(
            current,
            new,
            std::sync::atomic::Ordering::Acquire,
            std::sync::atomic::Ordering::Acquire,
        ) {
            Ok(x) => x,
            Err(x) => x,
        };
        let r = classify_starved(observed);
        if wakes_another(&r) {
            self.lock_event.notify(1);
        }
        r
    }

    /// Sets the held bit without waiting for other starving operations.
    /// Returns whether the lock was taken by this call, that is, whether the
    /// bit was clear before.
    pub fn grab(&self) -> (taken: bool) {
        let previous = self.state.fetch_or(held_bit(), std::sync::atomic::Ordering::Acquire);
        grab_succeeded(previous)
    }
}

} // verus!
