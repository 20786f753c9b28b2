use bengal::channel::{
    handle_within_limit, is_last_handle, one_handle, terminated, wakes_after_recv, wakes_after_send,
    Channel,
};
use bengal::error::{TryRecvError, TrySendError};

#[test]
fn bounded_channel_fills_and_drains_in_order() {
    let ch: Channel<u32> = Channel::bounded(2);
    assert_eq!(ch.capacity(), Some(2));
    assert!(ch.is_empty());
    assert!(ch.try_send(1) == Ok(()));
    assert!(ch.try_send(2) == Ok(()));
    assert!(ch.is_full());
    assert_eq!(ch.len(), 2);
    assert!(ch.try_send(3) == Err(TrySendError::Full(3)));
    assert_eq!(ch.try_recv(), Ok(1));
    assert_eq!(ch.try_recv(), Ok(2));
    assert_eq!(ch.try_recv(), Err(TryRecvError::Empty));
}

#[test]
fn closed_channel_refuses_sends_but_delivers_the_rest() {
    let ch: Channel<&str> = Channel::unbounded();
    assert!(ch.try_send("a") == Ok(()));
    assert!(ch.close());
    assert!(!ch.close());
    let refused = ch.try_send("b").unwrap_err();
    assert!(refused.is_closed());
    assert_eq!(refused.into_inner(), "b");
    assert!(!ch.is_terminated());
    assert_eq!(ch.try_recv(), Ok("a"));
    assert_eq!(ch.try_recv(), Err(TryRecvError::Closed));
    assert!(ch.is_terminated());
}

#[test]
fn unbounded_channel_is_never_full() {
    let ch: Channel<usize> = Channel::unbounded();
    assert_eq!(ch.capacity(), None);
    for i in 0..1000 {
        assert!(ch.try_send(i) == Ok(()));
    }
    assert!(!ch.is_full());
    assert_eq!(ch.len(), 1000);
}

#[test]
fn handle_counts_start_at_one() {
    let ch: Channel<u8> = Channel::bounded(1);
    assert_eq!(ch.sender_count(), 1);
    assert_eq!(ch.receiver_count(), 1);
}

#[test]
fn last_sender_released_closes_channel() {
    let ch: Channel<u8> = Channel::bounded(4);
    assert!(ch.add_sender());
    assert_eq!(ch.sender_count(), 2);
    assert!(!ch.remove_sender());
    assert!(ch.try_send(1) == Ok(()));
    assert!(ch.remove_sender());
    assert_eq!(ch.sender_count(), 0);
    assert!(ch.try_send(2) == Err(TrySendError::Closed(2)));
    assert_eq!(ch.try_recv(), Ok(1));
    assert_eq!(ch.try_recv(), Err(TryRecvError::Closed));
}

#[test]
fn last_receiver_released_closes_channel() {
    let ch: Channel<u8> = Channel::unbounded();
    assert!(ch.add_receiver());
    assert_eq!(ch.receiver_count(), 2);
    assert!(!ch.remove_receiver());
    assert!(ch.remove_receiver());
    assert!(ch.try_send(9) == Err(TrySendError::Closed(9)));
}

#[test]
fn handle_limit_is_half_the_range() {
    assert!(handle_within_limit(0));
    assert!(handle_within_limit(usize::MAX / 2));
    assert!(!handle_within_limit(usize::MAX / 2 + 1));
    assert!(!handle_within_limit(usize::MAX));
}

#[test]
fn last_handle_is_count_one() {
    assert!(is_last_handle(1));
    assert!(!is_last_handle(0));
    assert!(!is_last_handle(2));
}

#[test]
fn terminated_needs_closed_and_empty() {
    assert!(terminated(true, true));
    assert!(!terminated(true, false));
    assert!(!terminated(false, true));
    assert!(!terminated(false, false));
}

#[test]
fn channel_wake_decisions() {
    assert_eq!(one_handle(), 1);
    assert!(wakes_after_send::<u8>(&Ok(())));
    assert!(!wakes_after_send(&Err(TrySendError::Full(1u8))));
    assert!(!wakes_after_send(&Err(TrySendError::Closed(1u8))));
    assert!(wakes_after_recv(&Ok::<u8, TryRecvError>(4)));
    assert!(!wakes_after_recv::<u8>(&Err(TryRecvError::Empty)));
    assert!(!wakes_after_recv::<u8>(&Err(TryRecvError::Closed)));
}
