use bengal::channel::Channel;
use bengal::error::{RecvError, SendError, TryRecvError, TrySendError};
use bengal::waiting::{RecvState, RecvStep, SendState, SendStep, StreamState, StreamStep};

#[test]
fn send_run_registers_then_waits_on_full_queue() {
    let ch: Channel<u32> = Channel::bounded(1);
    assert!(ch.try_send(1) == Ok(()));
    let mut st = SendState::new(2u32);
    assert!(matches!(st.step(&ch), SendStep::Retry));
    let listener = match st.step(&ch) {
        SendStep::Wait(l) => l,
        _ => panic!("expected a wait"),
    };
    st.park(listener);
    assert_eq!(ch.try_recv(), Ok(1));
    assert!(matches!(st.step(&ch), SendStep::Finished(Ok(()))));
    assert_eq!(ch.try_recv(), Ok(2));
}

#[test]
fn send_run_on_closed_channel_hands_message_back() {
    let ch: Channel<&str> = Channel::unbounded();
    ch.close();
    let mut st = SendState::new("m");
    match st.step(&ch) {
        SendStep::Finished(Err(SendError(m))) => assert_eq!(m, "m"),
        _ => panic!("expected the message back"),
    }
}

#[test]
fn send_advance_keeps_full_message() {
    let ch: Channel<u8> = Channel::bounded(1);
    let mut st = SendState::new(5u8);
    assert!(matches!(st.step(&ch), SendStep::Finished(Ok(()))));
    assert!(matches!(st.advance(&ch, Err(TrySendError::Full(6))), SendStep::Retry));
    assert!(matches!(st.step(&ch), SendStep::Wait(_)));
}

#[test]
fn recv_run_registers_then_waits_on_empty_queue() {
    let ch: Channel<u32> = Channel::unbounded();
    let mut st = RecvState::new();
    assert!(matches!(st.step(&ch), RecvStep::Retry));
    let listener = match st.step(&ch) {
        RecvStep::Wait(l) => l,
        _ => panic!("expected a wait"),
    };
    st.park(listener);
    assert!(ch.try_send(11) == Ok(()));
    match st.step(&ch) {
        RecvStep::Finished(Ok(v)) => assert_eq!(v, 11),
        _ => panic!("expected the message"),
    }
}

#[test]
fn recv_run_on_closed_channel_ends_with_error() {
    let ch: Channel<u32> = Channel::unbounded();
    ch.close();
    let mut st = RecvState::new();
    assert!(matches!(st.step(&ch), RecvStep::Finished(Err(RecvError))));
    assert!(matches!(
        st.advance(&ch, Err::<u32, _>(TryRecvError::Empty)),
        RecvStep::Retry
    ));
}

#[test]
fn stream_keeps_listener_until_an_item_comes() {
    let ch: Channel<char> = Channel::unbounded();
    let mut st = StreamState::new();
    assert!(matches!(st.step(&ch), StreamStep::Retry));
    assert!(matches!(st.step(&ch), StreamStep::Poll));
    let listener = st.take_listener();
    assert!(listener.is_some());
    assert!(st.take_listener().is_none());
    st.park(listener.unwrap());
    assert!(ch.try_send('z') == Ok(()));
    match st.step(&ch) {
        StreamStep::Item(c) => assert_eq!(c, 'z'),
        _ => panic!("expected an item"),
    }
    assert!(st.take_listener().is_none());
    ch.close();
    assert!(matches!(st.step(&ch), StreamStep::End));
}

#[test]
fn send_run_pushes_message_once_over_many_polls() {
    let ch: Channel<u32> = Channel::bounded(1);
    assert!(ch.try_send(0) == Ok(()));
    let mut st = SendState::new(42u32);
    let mut finished = 0;
    let mut rounds = 0;
    while st.has_message() {
        match st.step(&ch) {
            SendStep::Finished(r) => {
                assert!(r.is_ok());
                finished += 1;
            }
            SendStep::Retry => {}
            SendStep::Wait(l) => {
                st.park(l);
                rounds += 1;
                if rounds == 3 {
                    assert_eq!(ch.try_recv(), Ok(0));
                }
            }
        }
    }
    assert_eq!(finished, 1);
    assert_eq!(ch.try_recv(), Ok(42));
    assert_eq!(ch.try_recv(), Err(TryRecvError::Empty));
}
