use nats_bridge::{ChatMessage, OutboundQueue};

fn user(text: &str) -> ChatMessage {
    ChatMessage::User(text.to_string())
}

#[test]
fn a_new_queue_is_empty() {
    let queue = OutboundQueue::new(3);
    assert_eq!(queue.len(), 0);
    assert_eq!(queue.capacity(), 3);
    assert!(queue.is_empty());
    assert!(!queue.is_full());
}

#[test]
fn messages_leave_in_the_order_they_came() {
    let mut queue = OutboundQueue::new(3);
    assert_eq!(queue.push(user("one")), None);
    assert_eq!(queue.push(user("two")), None);
    assert_eq!(queue.push(ChatMessage::Connected), None);
    assert_eq!(queue.len(), 3);
    assert_eq!(queue.pop(), Some(user("one")));
    assert_eq!(queue.pop(), Some(user("two")));
    assert_eq!(queue.pop(), Some(ChatMessage::Connected));
    assert_eq!(queue.pop(), None);
    assert!(queue.is_empty());
}

#[test]
fn a_full_queue_hands_the_message_back() {
    let mut queue = OutboundQueue::new(2);
    assert_eq!(queue.push(user("one")), None);
    assert_eq!(queue.push(user("two")), None);
    assert!(queue.is_full());
    assert_eq!(queue.push(user("three")), Some(user("three")));
    assert_eq!(queue.len(), 2);
    assert_eq!(queue.pop(), Some(user("one")));
    assert!(!queue.is_full());
    assert_eq!(queue.push(user("three")), None);
    assert_eq!(queue.pop(), Some(user("two")));
    assert_eq!(queue.pop(), Some(user("three")));
}

#[test]
fn a_queue_without_room_takes_nothing() {
    let mut queue = OutboundQueue::new(0);
    assert!(queue.is_empty());
    assert!(queue.is_full());
    assert_eq!(queue.push(user("one")), Some(user("one")));
    assert_eq!(queue.pop(), None);
}

#[test]
fn popping_an_empty_queue_changes_nothing() {
    let mut queue = OutboundQueue::new(1);
    assert_eq!(queue.pop(), None);
    assert_eq!(queue.len(), 0);
    assert_eq!(queue.capacity(), 1);
    assert_eq!(queue.push(user("one")), None);
    assert_eq!(queue.len(), 1);
}
