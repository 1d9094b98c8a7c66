use radishmq::message_topic::{MessageTopic, PublishOutcome};
use radishmq::message_topic_model::MessageTopicModel;

fn s(x: &str) -> String {
    x.to_string()
}

#[test]
fn new_topic_is_empty() {
    let t: MessageTopic<u64> = MessageTopic::new(s("t"));
    assert_eq!(t.get_index(), 0);
    assert_eq!(t.to_model(), MessageTopicModel::new(s("t"), 0, vec![]));
}

#[test]
fn publish_advances_index_by_one() {
    let mut t: MessageTopic<u64> = MessageTopic::new(s("t"));
    assert_eq!(t.publish(10), PublishOutcome::Appended);
    assert_eq!(t.get_index(), 1);
    assert_eq!(t.publish(11), PublishOutcome::Appended);
    assert_eq!(t.get_index(), 2);
    assert_eq!(t.data, vec![10, 11]);
}

#[test]
fn publish_multiple_appends_all_and_empties_input() {
    let mut t: MessageTopic<u64> = MessageTopic::new(s("t"));
    t.publish(1);
    let mut more = vec![2, 3, 4];
    assert_eq!(t.publish_multiple(&mut more), PublishOutcome::Appended);
    assert!(more.is_empty());
    assert_eq!(t.get_index(), 4);
    assert_eq!(t.data, vec![1, 2, 3, 4]);
}

#[test]
fn publishers_are_unique_and_removable() {
    let mut t: MessageTopic<u64> = MessageTopic::new(s("t"));
    assert!(!t.is_publisher(s("p")));
    t.add_publisher(s("p"));
    t.add_publisher(s("p"));
    assert!(t.is_publisher(s("p")));
    assert_eq!(t.publisher, vec![s("p")]);
    t.remove_publisher(s("q"));
    assert_eq!(t.publisher, vec![s("p")]);
    t.remove_publisher(s("p"));
    assert!(!t.is_publisher(s("p")));
}

#[test]
fn new_subscriber_starts_at_current_index() {
    let mut t: MessageTopic<u64> = MessageTopic::new(s("t"));
    t.publish(1);
    t.publish(2);
    t.publish(3);
    t.add_subscriber(s("s"));
    assert_eq!(t.get_subscriber_index(s("s")), 3);
    assert!(!t.new_data_to_fetch_for_subscriber(s("s")));
    assert_eq!(t.get_data_for_subscriber(s("s")), Some(vec![]));
}

#[test]
fn duplicate_subscriber_keeps_its_cursor() {
    let mut t: MessageTopic<u64> = MessageTopic::new(s("t"));
    t.add_subscriber(s("s"));
    t.publish(1);
    t.add_subscriber(s("s"));
    assert_eq!(t.get_subscriber_index(s("s")), 0);
    assert_eq!(t.get_subscriber_names(), vec![s("s")]);
}

#[test]
fn fetch_returns_pending_in_order_and_moves_cursor() {
    let mut t: MessageTopic<u64> = MessageTopic::new(s("t"));
    t.add_subscriber(s("a"));
    t.publish(1);
    t.publish(2);
    t.add_subscriber(s("b"));
    t.publish(3);
    assert!(t.new_data_to_fetch_for_subscriber(s("a")));
    assert_eq!(t.get_data_for_subscriber(s("a")), Some(vec![1, 2, 3]));
    assert_eq!(t.get_subscriber_index(s("a")), 3);
    assert_eq!(t.get_data_for_subscriber(s("b")), Some(vec![3]));
    assert!(!t.new_data_to_fetch_for_subscriber(s("a")));
    assert!(!t.new_data_to_fetch_for_subscriber(s("b")));
    assert_eq!(t.get_data_for_subscriber(s("a")), Some(vec![]));
}

#[test]
fn unknown_subscriber_has_no_offset() {
    let mut t: MessageTopic<u64> = MessageTopic::new(s("t"));
    assert_eq!(t.get_subscriber_offset(s("x")), None);
    t.add_subscriber(s("x"));
    t.remove_subscriber(s("x"));
    assert_eq!(t.get_subscriber_offset(s("x")), None);
    t.remove_subscriber(s("x"));
    assert_eq!(t.get_subscriber_names(), Vec::<String>::new());
}

#[test]
fn reset_index_keeps_distance_and_pending_payloads() {
    let mut t: MessageTopic<u64> = MessageTopic::new(s("t"));
    t.add_subscriber(s("a"));
    t.publish(1);
    t.publish(2);
    t.add_subscriber(s("b"));
    t.publish(3);
    t.publish(4);
    t.publish(5);
    assert_eq!(t.get_data_for_subscriber(s("a")), Some(vec![1, 2, 3, 4, 5]));
    // a is at 5, b at 2: two payloads are read by everyone.
    t.reset_index(2);
    assert_eq!(t.get_index(), 3);
    assert_eq!(t.get_subscriber_index(s("a")), 3);
    assert_eq!(t.get_subscriber_index(s("b")), 0);
    assert_eq!(t.data, vec![3, 4, 5]);
    assert!(!t.new_data_to_fetch_for_subscriber(s("a")));
    assert_eq!(t.get_data_for_subscriber(s("b")), Some(vec![3, 4, 5]));
    t.publish(6);
    assert_eq!(t.get_data_for_subscriber(s("a")), Some(vec![6]));
}

#[test]
fn to_model_lists_subscribers_in_joining_order() {
    let mut t: MessageTopic<u64> = MessageTopic::new(s("t"));
    t.add_subscriber(s("b"));
    t.add_subscriber(s("a"));
    t.publish(9);
    assert_eq!(t.to_model(), MessageTopicModel::new(s("t"), 1, vec![s("b"), s("a")]));
}
