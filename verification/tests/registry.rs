use work_designer_server::models::document::DocumentUpdateMessage;
use work_designer_server::models::message::{MessageType, SocketPushMessage};
use work_designer_server::services::broadcast::Delivery;
use work_designer_server::services::registry::{ChannelRegistry, TopicKey};

fn doc_edit(document: u128, user: u128, text: &str) -> SocketPushMessage {
    SocketPushMessage::Document(DocumentUpdateMessage {
        document_id: document,
        user_id: user,
        content: text.to_string(),
        cursor_position: None,
    })
}

#[test]
fn get_or_create_twice_gives_one_channel() {
    let mut registry = ChannelRegistry::new(16);
    let key = TopicKey::Document(42);
    assert!(!registry.contains(key));
    assert!(registry.get_or_create(key));
    let first = registry.subscribe(key).unwrap();
    assert!(!registry.get_or_create(key));
    let second = registry.subscribe(key).unwrap();
    assert_eq!((first, second), (0, 1));
    assert_eq!(registry.receiver_count(key), 2);
    assert_eq!(registry.publish(key, doc_edit(42, 1, "x")), Ok(2));
    assert_eq!(registry.recv(key, first), Some(Delivery::Message(doc_edit(42, 1, "x"))));
    assert_eq!(registry.recv(key, second), Some(Delivery::Message(doc_edit(42, 1, "x"))));
}

#[test]
fn topics_do_not_mix() {
    let mut registry = ChannelRegistry::new(16);
    let system = TopicKey::Global(MessageType::System);
    let debug = TopicKey::Global(MessageType::Debug);
    let a = registry.subscribe(system).unwrap();
    assert_eq!(registry.publish(debug, SocketPushMessage::Notification()), Ok(0));
    assert_eq!(registry.publish(system, SocketPushMessage::SystemMetrics()), Ok(1));
    assert_eq!(registry.recv(system, a), Some(Delivery::Message(SocketPushMessage::SystemMetrics())));
    assert_eq!(registry.recv(system, a), Some(Delivery::Empty));
    assert_eq!(registry.recv(debug, a), None);
    assert_eq!(registry.receiver_count(debug), 0);
    assert!(registry.contains(debug));
}

#[test]
fn remove_takes_only_idle_document_channels() {
    let mut registry = ChannelRegistry::new(16);
    let doc = TopicKey::Document(7);
    let system = TopicKey::Global(MessageType::System);
    assert!(!registry.remove(doc));
    let receiver = registry.subscribe(doc).unwrap();
    assert!(!registry.remove(doc));
    assert!(registry.contains(doc));
    assert!(registry.unsubscribe(doc, receiver));
    assert!(!registry.unsubscribe(doc, receiver));
    assert!(registry.remove(doc));
    assert!(!registry.contains(doc));
    assert!(!registry.remove(doc));
    registry.get_or_create(system);
    assert!(!registry.remove(system));
    assert!(registry.contains(system));
    assert_eq!(registry.recv(doc, receiver), None);
    assert!(!registry.unsubscribe(TopicKey::Document(8), 0));
}

#[test]
fn publish_creates_the_channel() {
    let mut registry = ChannelRegistry::new(4);
    let doc = TopicKey::Document(9);
    assert_eq!(registry.publish(doc, doc_edit(9, 1, "a")), Ok(0));
    assert!(registry.contains(doc));
    let late = registry.subscribe(doc).unwrap();
    assert_eq!(registry.recv(doc, late), Some(Delivery::Empty));
}
