use radishmq::event::{
    EventAddPublisherToMessageTopicData, EventCreateMessageTopicData,
    EventFetchDataFromMessageTopicData, EventPublishToMessageTopicData,
    EventPublishToTaskTopicData, TopicEvent,
};
use radishmq::message_topic_model::{
    AddPublisherToMessageTopic, AddSubscriberToMessageTopic, CreateMessageTopic, DataMessageTopic,
    MessageTopicModel, NewDataMessageTopic, PublishToMessageTopic, RemovePublisherFromMessageTopic,
    RemoveSubscriberFromMessageTopic,
};
use radishmq::message_topic_service::{
    add_publisher_to_message_topic, add_subscriber_to_message_topic, create_message_topic,
    delete_message_topic, get_all_message_topics, get_message_topic, get_new_data_for_subscriber,
    is_there_new_data_for_subscriber, publish_to_message_topic,
    remove_publisher_from_message_topic, remove_subscriber_from_message_topic,
};
use radishmq::state::State;
use radishmq::task_topic_model::{
    AddPublisherToTaskTopic, AddSubscriberToTaskTopic, CreateTaskTopic, NewTasks,
    PublishToTaskTopic, RemovePublisherFromTaskTopic, RemoveSubscriberFromTaskTopic,
    TaskTopicModel,
};
use radishmq::task_topic_service::{
    add_publisher_to_task_topic, add_subscriber_to_task_topic, create_task_topic,
    delete_task_topic, get_all_task_topics, get_new_task_for_subscriber, get_task_topic,
    is_there_a_task_for_subscriber, publish_to_task_topic, remove_publisher_from_task_topic,
    remove_subscriber_from_task_topic,
};

fn s(x: &str) -> String {
    x.to_string()
}

fn events(st: &mut State) -> Vec<TopicEvent> {
    let mut out = Vec::new();
    while let Some(e) = st.event_queue.dequeue() {
        out.push(e);
    }
    out
}

fn message_topic_with_publisher(st: &mut State) {
    create_message_topic(st, CreateMessageTopic::new(s("t")));
    add_publisher_to_message_topic(st, s("t"), AddPublisherToMessageTopic::new(s("p")));
}

fn publish_msg(st: &mut State, body: &str) {
    publish_to_message_topic(st, s("t"), s("p"), PublishToMessageTopic::new(s(body)));
}

#[test]
fn fan_out_delivers_what_was_published_after_joining() {
    let mut st = State::new();
    message_topic_with_publisher(&mut st);
    add_subscriber_to_message_topic(&mut st, s("t"), AddSubscriberToMessageTopic::new(s("s1")));
    publish_msg(&mut st, r#"{"a":1}"#);
    publish_msg(&mut st, r#"{"a":2}"#);
    add_subscriber_to_message_topic(&mut st, s("t"), AddSubscriberToMessageTopic::new(s("s2")));
    publish_msg(&mut st, r#"{"a":3}"#);
    assert_eq!(
        get_new_data_for_subscriber(&mut st, s("t"), s("s1")),
        Some(DataMessageTopic::new(vec![s(r#"{"a":1}"#), s(r#"{"a":2}"#), s(r#"{"a":3}"#)]))
    );
    assert_eq!(
        get_new_data_for_subscriber(&mut st, s("t"), s("s2")),
        Some(DataMessageTopic::new(vec![s(r#"{"a":3}"#)]))
    );
    assert_eq!(
        is_there_new_data_for_subscriber(&st, s("t"), s("s1")),
        Some(NewDataMessageTopic::new(false))
    );
    assert_eq!(
        is_there_new_data_for_subscriber(&st, s("t"), s("s2")),
        Some(NewDataMessageTopic::new(false))
    );
}

#[test]
fn single_delivery_hands_each_task_to_one_subscriber() {
    let mut st = State::new();
    create_task_topic(&mut st, CreateTaskTopic::new(s("t")));
    add_publisher_to_task_topic(&mut st, s("t"), AddPublisherToTaskTopic::new(s("p")));
    add_subscriber_to_task_topic(&mut st, s("t"), AddSubscriberToTaskTopic::new(s("s1")));
    add_subscriber_to_task_topic(&mut st, s("t"), AddSubscriberToTaskTopic::new(s("s2")));
    publish_to_task_topic(&mut st, s("t"), s("p"), PublishToTaskTopic::new(s("\"x\"")));
    publish_to_task_topic(&mut st, s("t"), s("p"), PublishToTaskTopic::new(s("\"y\"")));
    assert_eq!(is_there_a_task_for_subscriber(&st, s("t"), s("s1")), NewTasks::new(true));
    assert_eq!(get_new_task_for_subscriber(&mut st, s("t"), s("s1")), Some(s("\"x\"")));
    assert_eq!(get_new_task_for_subscriber(&mut st, s("t"), s("s2")), Some(s("\"y\"")));
    assert_eq!(get_new_task_for_subscriber(&mut st, s("t"), s("s1")), None);
    assert_eq!(is_there_a_task_for_subscriber(&st, s("t"), s("s1")), NewTasks::new(false));
}

#[test]
fn unauthorized_publisher_changes_nothing() {
    let mut st = State::new();
    message_topic_with_publisher(&mut st);
    add_subscriber_to_message_topic(&mut st, s("t"), AddSubscriberToMessageTopic::new(s("s")));
    let before = events(&mut st).len();
    assert_eq!(before, 3);
    publish_to_message_topic(&mut st, s("t"), s("intruder"), PublishToMessageTopic::new(s("1")));
    assert!(st.event_queue.is_empty());
    assert_eq!(st.message_topics[0].get_index(), 0);
    assert_eq!(
        is_there_new_data_for_subscriber(&st, s("t"), s("s")),
        Some(NewDataMessageTopic::new(false))
    );
}

#[test]
fn duplicate_create_is_refused_without_event() {
    let mut st = State::new();
    let first = create_message_topic(&mut st, CreateMessageTopic::new(s("t")));
    assert_eq!(first, Some(MessageTopicModel::new(s("t"), 0, vec![])));
    assert_eq!(create_message_topic(&mut st, CreateMessageTopic::new(s("t"))), None);
    assert_eq!(
        events(&mut st),
        vec![TopicEvent::CreateMessageTopic(EventCreateMessageTopicData::new(
            CreateMessageTopic::new(s("t"))
        ))]
    );
    assert_eq!(st.message_topics.len(), 1);
    let task = create_task_topic(&mut st, CreateTaskTopic::new(s("t")));
    assert_eq!(task, Some(TaskTopicModel::new(s("t"), vec![])));
    assert_eq!(create_task_topic(&mut st, CreateTaskTopic::new(s("t"))), None);
    assert_eq!(events(&mut st).len(), 1);
}

#[test]
fn new_subscriber_does_not_see_history() {
    let mut st = State::new();
    message_topic_with_publisher(&mut st);
    publish_msg(&mut st, "1");
    publish_msg(&mut st, "2");
    publish_msg(&mut st, "3");
    add_subscriber_to_message_topic(&mut st, s("t"), AddSubscriberToMessageTopic::new(s("s")));
    assert_eq!(
        is_there_new_data_for_subscriber(&st, s("t"), s("s")),
        Some(NewDataMessageTopic::new(false))
    );
    assert_eq!(
        get_new_data_for_subscriber(&mut st, s("t"), s("s")),
        Some(DataMessageTopic::new(vec![]))
    );
}

#[test]
fn each_message_mutation_enqueues_one_event() {
    let mut st = State::new();
    message_topic_with_publisher(&mut st);
    assert_eq!(events(&mut st).len(), 2);
    // A second registration of the same publisher is no mutation.
    add_publisher_to_message_topic(&mut st, s("t"), AddPublisherToMessageTopic::new(s("p")));
    assert!(st.event_queue.is_empty());
    add_subscriber_to_message_topic(&mut st, s("t"), AddSubscriberToMessageTopic::new(s("s")));
    add_subscriber_to_message_topic(&mut st, s("t"), AddSubscriberToMessageTopic::new(s("s")));
    assert_eq!(events(&mut st).len(), 1);
    publish_msg(&mut st, "9");
    assert_eq!(
        events(&mut st),
        vec![TopicEvent::PublishMessageTopic(EventPublishToMessageTopicData::new(
            s("t"),
            PublishToMessageTopic::new(s("9"))
        ))]
    );
    // Reads enqueue nothing, but a fetch records the new cursor.
    get_all_message_topics(&st);
    get_message_topic(&st, s("t"));
    is_there_new_data_for_subscriber(&st, s("t"), s("s"));
    assert!(st.event_queue.is_empty());
    get_new_data_for_subscriber(&mut st, s("t"), s("s"));
    assert_eq!(
        events(&mut st),
        vec![TopicEvent::FetchDataMessageTopic(EventFetchDataFromMessageTopicData::new(
            s("t"),
            s("s"),
            1
        ))]
    );
    remove_subscriber_from_message_topic(&mut st, s("t"), RemoveSubscriberFromMessageTopic::new(s("s")));
    remove_subscriber_from_message_topic(&mut st, s("t"), RemoveSubscriberFromMessageTopic::new(s("s")));
    remove_publisher_from_message_topic(&mut st, s("t"), RemovePublisherFromMessageTopic::new(s("p")));
    remove_publisher_from_message_topic(&mut st, s("t"), RemovePublisherFromMessageTopic::new(s("p")));
    assert_eq!(events(&mut st).len(), 2);
    assert!(delete_message_topic(&mut st, s("t")).is_some());
    assert!(delete_message_topic(&mut st, s("t")).is_none());
    assert_eq!(events(&mut st).len(), 1);
}

#[test]
fn each_task_mutation_enqueues_one_event() {
    let mut st = State::new();
    create_task_topic(&mut st, CreateTaskTopic::new(s("t")));
    add_publisher_to_task_topic(&mut st, s("t"), AddPublisherToTaskTopic::new(s("p")));
    add_publisher_to_task_topic(&mut st, s("t"), AddPublisherToTaskTopic::new(s("p")));
    add_subscriber_to_task_topic(&mut st, s("t"), AddSubscriberToTaskTopic::new(s("s")));
    add_subscriber_to_task_topic(&mut st, s("t"), AddSubscriberToTaskTopic::new(s("s")));
    assert_eq!(events(&mut st).len(), 3);
    publish_to_task_topic(&mut st, s("t"), s("p"), PublishToTaskTopic::new(s("w")));
    assert_eq!(
        events(&mut st),
        vec![TopicEvent::PublishTaskTopic(EventPublishToTaskTopicData::new(
            s("t"),
            PublishToTaskTopic::new(s("w"))
        ))]
    );
    assert_eq!(get_new_task_for_subscriber(&mut st, s("t"), s("s")), Some(s("w")));
    assert!(st.event_queue.is_empty());
    remove_subscriber_from_task_topic(&mut st, s("t"), RemoveSubscriberFromTaskTopic::new(s("s")));
    remove_subscriber_from_task_topic(&mut st, s("t"), RemoveSubscriberFromTaskTopic::new(s("s")));
    remove_publisher_from_task_topic(&mut st, s("t"), RemovePublisherFromTaskTopic::new(s("p")));
    remove_publisher_from_task_topic(&mut st, s("t"), RemovePublisherFromTaskTopic::new(s("p")));
    assert_eq!(events(&mut st).len(), 2);
    assert_eq!(delete_task_topic(&mut st, s("t")), Some(TaskTopicModel::new(s("t"), vec![])));
    assert_eq!(delete_task_topic(&mut st, s("t")), None);
    assert_eq!(events(&mut st).len(), 1);
}

#[test]
fn unknown_topic_or_subscriber_gives_negative_results() {
    let mut st = State::new();
    assert_eq!(get_message_topic(&st, s("t")), None);
    assert_eq!(is_there_new_data_for_subscriber(&st, s("t"), s("s")), None);
    assert_eq!(get_new_data_for_subscriber(&mut st, s("t"), s("s")), None);
    assert_eq!(get_task_topic(&st, s("t")), None);
    assert_eq!(is_there_a_task_for_subscriber(&st, s("t"), s("s")), NewTasks::new(false));
    assert_eq!(get_new_task_for_subscriber(&mut st, s("t"), s("s")), None);
    publish_to_task_topic(&mut st, s("t"), s("p"), PublishToTaskTopic::new(s("1")));
    add_publisher_to_message_topic(&mut st, s("t"), AddPublisherToMessageTopic::new(s("p")));
    assert!(st.event_queue.is_empty());
    create_message_topic(&mut st, CreateMessageTopic::new(s("t")));
    create_task_topic(&mut st, CreateTaskTopic::new(s("t")));
    assert_eq!(is_there_new_data_for_subscriber(&st, s("t"), s("s")), None);
    assert_eq!(get_new_data_for_subscriber(&mut st, s("t"), s("s")), None);
    assert_eq!(is_there_a_task_for_subscriber(&st, s("t"), s("s")), NewTasks::new(false));
    assert_eq!(get_new_task_for_subscriber(&mut st, s("t"), s("s")), None);
    assert_eq!(events(&mut st).len(), 2);
}

#[test]
fn listing_reports_every_topic_in_creation_order() {
    let mut st = State::default();
    create_message_topic(&mut st, CreateMessageTopic::new(s("b")));
    create_message_topic(&mut st, CreateMessageTopic::new(s("a")));
    add_subscriber_to_message_topic(&mut st, s("a"), AddSubscriberToMessageTopic::new(s("s")));
    assert_eq!(
        get_all_message_topics(&st),
        vec![
            MessageTopicModel::new(s("b"), 0, vec![]),
            MessageTopicModel::new(s("a"), 0, vec![s("s")]),
        ]
    );
    assert_eq!(get_message_topic(&st, s("a")), Some(MessageTopicModel::new(s("a"), 0, vec![s("s")])));
    create_task_topic(&mut st, CreateTaskTopic::new(s("x")));
    add_subscriber_to_task_topic(&mut st, s("x"), AddSubscriberToTaskTopic::new(s("w")));
    assert_eq!(get_all_task_topics(&st), vec![TaskTopicModel::new(s("x"), vec![s("w")])]);
    assert_eq!(get_task_topic(&st, s("x")), Some(TaskTopicModel::new(s("x"), vec![s("w")])));
    assert_eq!(
        events(&mut st)[3],
        TopicEvent::CreateTaskTopic(radishmq::event::EventCreateTaskTopicData::new(CreateTaskTopic::new(s("x"))))
    );
}

#[test]
fn publisher_event_carries_topic_and_name() {
    let mut st = State::new();
    message_topic_with_publisher(&mut st);
    let evs = events(&mut st);
    assert_eq!(
        evs[1],
        TopicEvent::AddPublisherMessageTopic(EventAddPublisherToMessageTopicData::new(
            s("t"),
            AddPublisherToMessageTopic::new(s("p"))
        ))
    );
}
