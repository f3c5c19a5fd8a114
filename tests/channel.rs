use futures_channel::mpsc::TryRecvError;
use infect::{message_channel, Enqueued, Message, MessagePort, MAX_CAPACITY};

#[test]
fn second_enqueue_into_full_channel_is_dropped() {
    let (sender, mut receiver) = message_channel::<u8, u8>(1);
    let mut port = MessagePort::new(sender);
    port.submit_intent(1u8);
    port.submit_intent(2u8);
    assert_eq!(receiver.try_recv(), Ok(Message::Intent(1)));
    assert_eq!(receiver.try_recv(), Err(TryRecvError::Empty));
}

#[test]
fn channel_keeps_order_up_to_capacity() {
    let (sender, mut receiver) = message_channel::<u8, u8>(2);
    let mut port = MessagePort::new(sender);
    port.submit_effect(1u8);
    port.submit_message(Message::Intent(2));
    port.submit_effect(3u8);
    assert_eq!(receiver.try_recv(), Ok(Message::Effect(1)));
    assert_eq!(receiver.try_recv(), Ok(Message::Intent(2)));
    assert_eq!(receiver.try_recv(), Err(TryRecvError::Empty));
}

#[test]
fn submitting_into_closed_channel_is_silent() {
    let (sender, receiver) = message_channel::<u8, u8>(4);
    drop(receiver);
    let mut port = MessagePort::new(sender);
    port.submit_intent(1u8);
    port.submit_effect(2u8);
}

#[test]
fn closed_channel_reports_closed_after_draining() {
    let (sender, mut receiver) = message_channel::<u8, u8>(4);
    let mut port = MessagePort::new(sender);
    port.submit_effect(5u8);
    drop(port);
    assert_eq!(receiver.try_recv(), Ok(Message::Effect(5)));
    assert_eq!(receiver.try_recv(), Err(TryRecvError::Closed));
}

#[test]
fn port_clone_and_inner_sender_reach_the_same_channel() {
    let (sender, mut receiver) = message_channel::<u8, u8>(4);
    let mut port = MessagePort::new(sender);
    let mut other = port.clone();
    other.submit_intent(7u8);
    port.submit_intent(8u8);
    let mut inner = port.into_inner();
    inner.try_send(Message::Effect(9)).unwrap();
    assert_eq!(receiver.try_recv(), Ok(Message::Intent(7)));
    assert_eq!(receiver.try_recv(), Ok(Message::Intent(8)));
    assert_eq!(receiver.try_recv(), Ok(Message::Effect(9)));
}

#[test]
fn largest_capacity_is_accepted() {
    let (sender, mut receiver) = message_channel::<u8, u8>(MAX_CAPACITY);
    let mut port = MessagePort::new(sender);
    port.submit_intent(1u8);
    assert_eq!(receiver.try_recv(), Ok(Message::Intent(1)));
}

#[test]
fn try_submit_reports_sent_full_and_closed() {
    let (sender, mut receiver) = message_channel::<u8, u8>(1);
    let mut port = MessagePort::new(sender);
    assert!(matches!(port.try_submit(Message::Intent(1)), Enqueued::Sent));
    assert!(matches!(port.try_submit(Message::Intent(2)), Enqueued::Full(Message::Intent(2))));
    assert_eq!(receiver.try_recv(), Ok(Message::Intent(1)));
    drop(receiver);
    assert!(matches!(port.try_submit(Message::Effect(3)), Enqueued::Closed(Message::Effect(3))));
}

#[test]
fn into_inner_hands_back_the_sender_of_the_port() {
    let (sender, mut receiver) = message_channel::<u8, u8>(2);
    let port = MessagePort::new(sender);
    let mut inner = port.into_inner();
    inner.try_send(Message::Intent(4)).unwrap();
    assert_eq!(receiver.try_recv(), Ok(Message::Intent(4)));
}
