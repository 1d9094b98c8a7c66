use radishmq::event::{
    EventDeleteMessageTopicData, EventFetchDataFromMessageTopicData,
    EventResetIndexOfMessageTopicData,
};
use radishmq::message_topic_model::UpdateMessageTopic;
use radishmq::task_topic_model::{Task, UpdateTaskTopic};

#[test]
fn event_constructors_keep_their_arguments() {
    let d = EventDeleteMessageTopicData::new("t".to_string());
    assert_eq!(d.topic_name, "t");
    let f = EventFetchDataFromMessageTopicData::new("t".to_string(), "s".to_string(), 4);
    assert_eq!(f.subscriber_name, "s");
    assert_eq!(f.subscriber_index, 4);
    let r = EventResetIndexOfMessageTopicData::new("t".to_string(), 9);
    assert_eq!(r.index_subtrahend, 9);
}

#[test]
fn model_constructors_keep_their_arguments() {
    assert_eq!(UpdateMessageTopic::new("a".to_string()).name, "a");
    assert_eq!(UpdateTaskTopic::new("b".to_string()).name, "b");
    assert_eq!(Task::new(vec![1, 2]).data, vec![1, 2]);
}
