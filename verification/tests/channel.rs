use ctp_router::channel::{channel, ChannelError, GroupSender};

#[test]
fn capacity_one_rejects_second_send_with_message_back() {
    let (tx, rx) = channel::<String>(1);
    assert!(tx.try_send("first".to_string()).is_ok());
    match tx.try_send("second".to_string()) {
        Err(ChannelError::TrySendError(m)) => assert_eq!(m, "second"),
        _ => panic!("second try_send must reject and return the message"),
    }
    assert_eq!(rx.recv().ok(), Some("first".to_string()));
}

#[test]
fn recv_after_producer_dropped_reports_error_not_panic() {
    let (tx, rx) = channel::<u32>(4);
    drop(tx);
    assert!(matches!(rx.recv(), Err(ChannelError::RecvError)));
}

#[test]
fn recv_on_empty_channel_reports_error() {
    let (_tx, rx) = channel::<u32>(2);
    assert!(matches!(rx.recv(), Err(ChannelError::RecvError)));
}

#[test]
fn channel_is_fifo() {
    let (tx, rx) = channel::<u32>(3);
    tx.try_send(1).unwrap_or(());
    tx.try_send(2).unwrap_or(());
    tx.try_send(3).unwrap_or(());
    assert_eq!(rx.recv().ok(), Some(1));
    assert_eq!(rx.recv().ok(), Some(2));
    assert_eq!(rx.recv().ok(), Some(3));
}

#[test]
fn send_all_delivers_one_clone_to_each_sender() {
    let (tx1, rx1) = channel::<String>(2);
    let (tx2, rx2) = channel::<String>(2);
    let (tx3, rx3) = channel::<String>(2);
    let group = GroupSender::new(vec![tx1, tx2, tx3], vec![]);
    assert!(group.send_all("tick".to_string()).is_ok());
    assert_eq!(rx1.recv().ok(), Some("tick".to_string()));
    assert_eq!(rx2.recv().ok(), Some("tick".to_string()));
    assert_eq!(rx3.recv().ok(), Some("tick".to_string()));
    assert!(matches!(rx1.recv(), Err(ChannelError::RecvError)));
}

#[test]
fn send_all_returns_message_when_a_member_overflows() {
    let (tx1, _rx1) = channel::<u32>(1);
    let (tx2, _rx2) = channel::<u32>(1);
    let group = GroupSender::new(vec![tx1, tx2], vec![]);
    assert!(group.send_all(1u32).is_ok());
    match group.send_all(2u32) {
        Err(ChannelError::TrySendError(m)) => assert_eq!(m, 2),
        _ => panic!("full member must reject the broadcast"),
    }
}

#[test]
fn send_to_reaches_only_the_addressed_sender() {
    let (tx1, rx1) = channel::<u32>(2);
    let (tx2, rx2) = channel::<u32>(2);
    let group = GroupSender::new(vec![tx1, tx2], vec![]);
    assert!(group.send_to(9, 1).is_ok());
    assert!(matches!(rx1.recv(), Err(ChannelError::RecvError)));
    assert_eq!(rx2.recv().ok(), Some(9));
}

#[test]
fn try_send_to_out_of_range_returns_message_in_overflow_error() {
    let (tx, _rx) = channel::<String>(1);
    let group = GroupSender::new(vec![tx], vec![]);
    match group.try_send_to("keep me".to_string(), 5) {
        Err(ChannelError::SenderOverFlow(m)) => assert_eq!(m, "keep me"),
        _ => panic!("out-of-range index must return the message"),
    }
}

#[test]
fn try_send_to_in_range_delivers() {
    let (tx, rx) = channel::<String>(1);
    let group = GroupSender::new(vec![tx], vec![]);
    assert!(group.try_send_to("m".to_string(), 0).is_ok());
    assert_eq!(rx.recv().ok(), Some("m".to_string()));
}

#[test]
fn try_send_group_unknown_group_returns_message() {
    let (tx, _rx) = channel::<String>(1);
    let group = GroupSender::new(vec![tx], vec![vec![0]]);
    match group.try_send_group("original".to_string(), 3) {
        Err(ChannelError::SenderGroupNotFound(m)) => assert_eq!(m, "original"),
        _ => panic!("unknown group must return the message"),
    }
}

#[test]
fn try_send_group_delivers_to_members_in_stored_order() {
    let (tx1, rx1) = channel::<u32>(4);
    let (tx2, rx2) = channel::<u32>(4);
    let (tx3, rx3) = channel::<u32>(4);
    // Groups may overlap; group 1 addresses the outer senders only.
    let group = GroupSender::new(vec![tx1, tx2, tx3], vec![vec![0, 1, 2], vec![2, 0]]);
    assert!(group.try_send_group(5u32, 1).is_ok());
    assert_eq!(rx1.recv().ok(), Some(5));
    assert!(matches!(rx2.recv(), Err(ChannelError::RecvError)));
    assert_eq!(rx3.recv().ok(), Some(5));
    assert!(group.try_send_group(6u32, 0).is_ok());
    assert_eq!(rx1.recv().ok(), Some(6));
    assert_eq!(rx2.recv().ok(), Some(6));
    assert_eq!(rx3.recv().ok(), Some(6));
}

#[test]
fn try_send_group_full_member_returns_message() {
    let (tx, _rx) = channel::<u32>(1);
    let group = GroupSender::new(vec![tx], vec![vec![0]]);
    assert!(group.try_send_group(1u32, 0).is_ok());
    match group.try_send_group(2u32, 0) {
        Err(ChannelError::TrySendError(m)) => assert_eq!(m, 2),
        _ => panic!("full member must reject the group send"),
    }
}

#[test]
fn error_descriptions_name_their_cause() {
    let recv: ChannelError<u32> = ChannelError::RecvError;
    assert_eq!(recv.describe(), "Failed to receive message from channel");
    let send: ChannelError<u32> = ChannelError::TrySendError(1);
    assert_eq!(send.describe(), "Failed to send message through channel");
    let over: ChannelError<u32> = ChannelError::SenderOverFlow(1);
    assert_eq!(over.describe(), "Overflow on group sender's sender index");
    let group: ChannelError<u32> = ChannelError::SenderGroupNotFound(1);
    assert_eq!(group.describe(), "Overflow on group sender's group index(group not found)");
}
