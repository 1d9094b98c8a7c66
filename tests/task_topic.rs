use radishmq::task_topic::TaskTopic;
use radishmq::task_topic_model::TaskTopicModel;

fn s(x: &str) -> String {
    x.to_string()
}

#[test]
fn tasks_come_out_in_order_once_each() {
    let mut t: TaskTopic<u64> = TaskTopic::new(s("t"));
    t.add_subscriber(s("s1"));
    t.add_subscriber(s("s2"));
    assert!(!t.has_open_tasks());
    t.publish(7);
    t.publish(8);
    assert!(t.has_open_tasks());
    assert_eq!(t.fetch_data(s("s1")), Some(7));
    assert_eq!(t.fetch_data(s("s2")), Some(8));
    assert_eq!(t.fetch_data(s("s1")), None);
    assert!(!t.has_open_tasks());
}

#[test]
fn publish_multiple_keeps_order_and_empties_input() {
    let mut t: TaskTopic<u64> = TaskTopic::new(s("t"));
    t.add_subscriber(s("s"));
    t.publish(1);
    let mut more = vec![2, 3];
    t.publish_multiple(&mut more);
    assert!(more.is_empty());
    assert_eq!(t.fetch_data(s("s")), Some(1));
    assert_eq!(t.fetch_data(s("s")), Some(2));
    assert_eq!(t.fetch_data(s("s")), Some(3));
    assert_eq!(t.fetch_data(s("s")), None);
}

#[test]
fn fetch_count_is_publish_count_minus_waiting() {
    let mut t: TaskTopic<u64> = TaskTopic::new(s("t"));
    t.add_subscriber(s("a"));
    t.add_subscriber(s("b"));
    for i in 0..5 {
        t.publish(i);
    }
    let mut fetched = Vec::new();
    for name in ["a", "b", "a"] {
        if let Some(x) = t.fetch_data(s(name)) {
            fetched.push(x);
        }
    }
    assert_eq!(fetched, vec![0, 1, 2]);
    assert_eq!(t.data.len(), 5 - fetched.len());
}

#[test]
fn membership_is_unique_and_removable() {
    let mut t: TaskTopic<u64> = TaskTopic::new(s("t"));
    t.add_publisher(s("p"));
    t.add_publisher(s("p"));
    assert!(t.is_publisher(s("p")));
    assert_eq!(t.publisher, vec![s("p")]);
    t.remove_publisher(s("p"));
    assert!(!t.is_publisher(s("p")));
    t.add_subscriber(s("s"));
    t.add_subscriber(s("s"));
    assert!(t.is_subscriber(s("s")));
    assert_eq!(t.subscriber, vec![s("s")]);
    t.remove_subscriber(s("s"));
    assert!(!t.is_subscriber(s("s")));
    t.remove_subscriber(s("s"));
    assert!(t.subscriber.is_empty());
}

#[test]
fn task_topic_model_lists_subscribers() {
    let mut t: TaskTopic<u64> = TaskTopic::new(s("t"));
    t.add_subscriber(s("x"));
    t.add_subscriber(s("y"));
    assert_eq!(t.to_model(), TaskTopicModel::new(s("t"), vec![s("x"), s("y")]));
}
