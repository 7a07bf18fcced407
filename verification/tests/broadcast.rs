use work_designer_server::models::document::DocumentUpdateMessage;
use work_designer_server::models::message::SocketPushMessage;
use work_designer_server::services::broadcast::{Delivery, MessageBroadcast};

fn edit(user: u128, text: &str) -> SocketPushMessage {
    SocketPushMessage::Document(DocumentUpdateMessage {
        document_id: 1,
        user_id: user,
        content: text.to_string(),
        cursor_position: None,
    })
}

#[test]
fn publish_without_subscribers_reaches_nobody() {
    let mut channel = MessageBroadcast::new(4);
    assert_eq!(channel.receiver_count(), 0);
    assert_eq!(channel.publish(SocketPushMessage::Notification()), Ok(0));
    assert_eq!(channel.published(), 0);
}

#[test]
fn receivers_get_messages_in_publication_order() {
    let mut channel = MessageBroadcast::new(8);
    let a = channel.subscribe().unwrap();
    let b = channel.subscribe().unwrap();
    assert_eq!((a, b), (0, 1));
    assert_eq!(channel.publish(edit(7, "one")), Ok(2));
    assert_eq!(channel.publish(edit(7, "two")), Ok(2));
    assert_eq!(channel.publish(SocketPushMessage::TaskProgress()), Ok(2));
    for receiver in [a, b] {
        assert_eq!(channel.recv(receiver), Some(Delivery::Message(edit(7, "one"))));
        assert_eq!(channel.recv(receiver), Some(Delivery::Message(edit(7, "two"))));
        assert_eq!(
            channel.recv(receiver),
            Some(Delivery::Message(SocketPushMessage::TaskProgress()))
        );
        assert_eq!(channel.recv(receiver), Some(Delivery::Empty));
    }
}

#[test]
fn late_subscriber_sees_no_backlog() {
    let mut channel = MessageBroadcast::new(8);
    let early = channel.subscribe().unwrap();
    assert_eq!(channel.publish(edit(1, "before")), Ok(1));
    let late = channel.subscribe().unwrap();
    assert_eq!(channel.recv(late), Some(Delivery::Empty));
    assert_eq!(channel.publish(edit(1, "after")), Ok(2));
    assert_eq!(channel.recv(late), Some(Delivery::Message(edit(1, "after"))));
    assert_eq!(channel.recv(late), Some(Delivery::Empty));
    assert_eq!(channel.recv(early), Some(Delivery::Message(edit(1, "before"))));
    assert_eq!(channel.recv(early), Some(Delivery::Message(edit(1, "after"))));
}

#[test]
fn slow_receiver_is_overrun_and_publisher_is_not_held() {
    let mut channel = MessageBroadcast::new(4);
    let slow = channel.subscribe().unwrap();
    let fast = channel.subscribe().unwrap();
    for n in 0..10u32 {
        assert_eq!(channel.publish(edit(1, &n.to_string())), Ok(2));
        assert_eq!(channel.recv(fast), Some(Delivery::Message(edit(1, &n.to_string()))));
    }
    assert_eq!(channel.recv(slow), Some(Delivery::Overrun(6)));
    for n in 6..10u32 {
        assert_eq!(channel.recv(slow), Some(Delivery::Message(edit(1, &n.to_string()))));
    }
    assert_eq!(channel.recv(slow), Some(Delivery::Empty));
}

#[test]
fn ring_length_is_capacity_rounded_up_to_power_of_two() {
    let mut channel = MessageBroadcast::new(3);
    assert_eq!(channel.capacity(), 3);
    let receiver = channel.subscribe().unwrap();
    for n in 0..4u32 {
        assert_eq!(channel.publish(edit(1, &n.to_string())), Ok(1));
    }
    assert_eq!(channel.recv(receiver), Some(Delivery::Message(edit(1, "0"))));
    for n in 4..9u32 {
        assert_eq!(channel.publish(edit(1, &n.to_string())), Ok(1));
    }
    assert_eq!(channel.recv(receiver), Some(Delivery::Overrun(4)));
    assert_eq!(channel.recv(receiver), Some(Delivery::Message(edit(1, "5"))));
}

#[test]
fn unsubscribed_receiver_is_gone() {
    let mut channel = MessageBroadcast::new(4);
    let a = channel.subscribe().unwrap();
    let b = channel.subscribe().unwrap();
    assert!(channel.is_subscribed(a));
    assert!(channel.unsubscribe(a));
    assert!(!channel.unsubscribe(a));
    assert!(!channel.is_subscribed(a));
    assert!(!channel.unsubscribe(17));
    assert_eq!(channel.receiver_count(), 1);
    assert_eq!(channel.publish(SocketPushMessage::SystemMetrics()), Ok(1));
    assert_eq!(channel.recv(a), None);
    assert_eq!(channel.recv(17), None);
    assert_eq!(channel.recv(b), Some(Delivery::Message(SocketPushMessage::SystemMetrics())));
    assert!(channel.unsubscribe(b));
    assert_eq!(channel.publish(SocketPushMessage::SystemMetrics()), Ok(0));
    assert_eq!(channel.published(), 1);
    let c = channel.subscribe().unwrap();
    assert_eq!(c, 2);
    assert_eq!(channel.recv(c), Some(Delivery::Empty));
}
