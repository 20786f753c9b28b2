use bengal::lock::{
    classify_fast, classify_starved, grab_succeeded, starving_within_limit, FastAttempt,
    LockCore, StarvedAttempt,
};
use bengal::lock::{slow_path_next, SlowAction, SlowEvent, SlowPhase};
use bengal::lock::{
    fast_exchange, held_bit, initial_word, passes_wakeup, release_step, starved_exchange,
    starving_step, wakes_another,
};

#[test]
fn fast_path_takes_free_lock_once() {
    let core = LockCore::new();
    assert!(core.try_acquire());
    assert!(!core.try_acquire());
    assert!(matches!(core.attempt_fast(), FastAttempt::Held));
    core.release();
    assert!(matches!(core.attempt_fast(), FastAttempt::Acquired));
    core.release();
    assert!(core.try_acquire());
}

#[test]
fn starving_operation_takes_lock_in_turn() {
    let core = LockCore::new();
    assert!(core.begin_starving());
    assert!(!core.try_acquire());
    assert!(matches!(core.attempt_fast(), FastAttempt::Starving));
    assert!(matches!(core.attempt_fast_after_wait(), FastAttempt::Starving));
    assert!(matches!(core.attempt_starved(), StarvedAttempt::Acquired));
    assert!(matches!(core.attempt_starved(), StarvedAttempt::Held));
    assert!(!core.grab());
    core.release();
    assert!(core.grab());
    core.release();
    core.end_starving();
    assert!(core.try_acquire());
}

#[test]
fn two_starving_operations_see_lock_available() {
    let core = LockCore::new();
    assert!(core.begin_starving());
    assert!(core.begin_starving());
    assert!(matches!(core.attempt_starved(), StarvedAttempt::Available));
    core.end_starving();
    assert!(matches!(core.attempt_starved(), StarvedAttempt::Acquired));
}

#[test]
fn classify_fast_values() {
    assert!(matches!(classify_fast(0), FastAttempt::Acquired));
    assert!(matches!(classify_fast(1), FastAttempt::Held));
    assert!(matches!(classify_fast(2), FastAttempt::Starving));
    assert!(matches!(classify_fast(7), FastAttempt::Starving));
}

#[test]
fn classify_starved_values() {
    assert!(matches!(classify_starved(2), StarvedAttempt::Acquired));
    assert!(matches!(classify_starved(3), StarvedAttempt::Held));
    assert!(matches!(classify_starved(5), StarvedAttempt::Held));
    assert!(matches!(classify_starved(4), StarvedAttempt::Available));
    assert!(matches!(classify_starved(0), StarvedAttempt::Available));
}

#[test]
fn grab_and_limit_values() {
    assert!(grab_succeeded(0));
    assert!(grab_succeeded(4));
    assert!(!grab_succeeded(1));
    assert!(!grab_succeeded(3));
    assert!(starving_within_limit(usize::MAX / 2));
    assert!(!starving_within_limit(usize::MAX / 2 + 1));
}

#[test]
fn slow_path_decisions() {
    assert!(matches!(
        slow_path_next(SlowEvent::Attempted(FastAttempt::Acquired), false),
        (SlowAction::Done, _)
    ));
    assert!(matches!(
        slow_path_next(SlowEvent::Attempted(FastAttempt::Held), true),
        (SlowAction::Wait, SlowPhase::Fast)
    ));
    assert!(matches!(
        slow_path_next(SlowEvent::Attempted(FastAttempt::Starving), false),
        (SlowAction::JoinStarving, SlowPhase::Starving)
    ));
    assert!(matches!(
        slow_path_next(SlowEvent::Rechecked(FastAttempt::Held), false),
        (SlowAction::NextRound, SlowPhase::Fast)
    ));
    assert!(matches!(
        slow_path_next(SlowEvent::Rechecked(FastAttempt::Held), true),
        (SlowAction::JoinStarving, SlowPhase::Starving)
    ));
    assert!(matches!(
        slow_path_next(SlowEvent::AttemptedStarved(StarvedAttempt::Available), false),
        (SlowAction::Wait, SlowPhase::Starving)
    ));
    assert!(matches!(
        slow_path_next(SlowEvent::AttemptedStarved(StarvedAttempt::Acquired), false),
        (SlowAction::Done, _)
    ));
    assert!(matches!(
        slow_path_next(SlowEvent::Grabbed(false), false),
        (SlowAction::NextRound, SlowPhase::Starving)
    ));
    assert!(matches!(slow_path_next(SlowEvent::Grabbed(true), false), (SlowAction::Done, _)));
}

#[test]
fn lock_word_operands() {
    assert_eq!(initial_word(), 0);
    assert_eq!(fast_exchange(), (0, 1));
    assert_eq!(starved_exchange(), (2, 3));
    assert_eq!(held_bit(), 1);
    assert_eq!(release_step(), 1);
    assert_eq!(starving_step(), 2);
}

#[test]
fn lock_wake_decisions() {
    assert!(passes_wakeup(&FastAttempt::Starving));
    assert!(!passes_wakeup(&FastAttempt::Held));
    assert!(!passes_wakeup(&FastAttempt::Acquired));
    assert!(wakes_another(&StarvedAttempt::Available));
    assert!(!wakes_another(&StarvedAttempt::Held));
    assert!(!wakes_another(&StarvedAttempt::Acquired));
}

#[test]
fn slow_path_joins_starving_once() {
    let outcomes = [
        SlowEvent::Attempted(FastAttempt::Held),
        SlowEvent::Rechecked(FastAttempt::Held),
        SlowEvent::Attempted(FastAttempt::Held),
        SlowEvent::Rechecked(FastAttempt::Held),
        SlowEvent::AttemptedStarved(StarvedAttempt::Held),
        SlowEvent::Grabbed(false),
        SlowEvent::AttemptedStarved(StarvedAttempt::Available),
        SlowEvent::Grabbed(true),
    ];
    let timeouts = [false, false, false, true, false, false, false, false];
    let mut phase = SlowPhase::Fast;
    let mut joins = 0;
    let mut done = false;
    for (event, timed_out) in outcomes.into_iter().zip(timeouts) {
        let (action, next) = slow_path_next(event, timed_out);
        if matches!(action, SlowAction::JoinStarving) {
            assert!(matches!(phase, SlowPhase::Fast));
            joins += 1;
        }
        if matches!(action, SlowAction::Done) {
            done = true;
        }
        phase = next;
    }
    assert_eq!(joins, 1);
    assert!(done);
    assert!(matches!(phase, SlowPhase::Starving));
}

#[test]
fn lock_core_mutual_exclusion_scenario() {
    let core = LockCore::new();
    assert!(core.try_acquire());
    assert!(!core.try_acquire());
    assert!(matches!(core.attempt_fast(), FastAttempt::Held));
    assert!(!core.grab());
    assert!(core.begin_starving());
    assert!(matches!(core.attempt_starved(), StarvedAttempt::Held));
    core.release();
    assert!(matches!(core.attempt_starved(), StarvedAttempt::Acquired));
    assert!(!core.try_acquire());
    assert!(!core.grab());
    core.release();
    core.end_starving();
    assert!(core.try_acquire());
}
