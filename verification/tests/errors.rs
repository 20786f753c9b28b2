use bengal::error::{RecvError, SendError, TryRecvError, TrySendError};

#[test]
fn send_error_hands_back_message() {
    let e = SendError(7u32);
    assert_eq!(e.into_inner(), 7);
}

#[test]
fn send_error_texts() {
    let e = SendError("x");
    assert_eq!(e.message(), "sending into a closed channel");
    assert_eq!(e.debug_text(), "SendError(..)");
}

#[test]
fn try_send_error_full() {
    let e = TrySendError::Full(3i64);
    assert!(e.is_full());
    assert!(!e.is_closed());
    assert_eq!(e.message(), "sending into a full channel");
    assert_eq!(e.debug_text(), "Full(..)");
    assert_eq!(e.into_inner(), 3);
}

#[test]
fn try_send_error_closed() {
    let e = TrySendError::Closed(String::from("hello"));
    assert!(!e.is_full());
    assert!(e.is_closed());
    assert_eq!(e.message(), "sending into a closed channel");
    assert_eq!(e.debug_text(), "Closed(..)");
    assert_eq!(e.into_inner(), "hello");
}

#[test]
fn recv_error_text() {
    assert_eq!(RecvError.message(), "receiving from an empty and closed channel");
    assert_eq!(RecvError, RecvError);
}

#[test]
fn try_recv_error_kinds() {
    assert!(TryRecvError::Empty.is_empty());
    assert!(!TryRecvError::Empty.is_closed());
    assert!(TryRecvError::Closed.is_closed());
    assert!(!TryRecvError::Closed.is_empty());
    assert_eq!(TryRecvError::Empty.message(), "receiving from an empty channel");
    assert_eq!(
        TryRecvError::Closed.message(),
        "receiving from an empty and closed channel"
    );
    assert_ne!(TryRecvError::Empty, TryRecvError::Closed);
}
