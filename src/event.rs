//! Persistence events: one variant per mutation of the broker, each carrying
//! what the store needs to repeat that mutation.

use crate::message_topic_model::{
    AddPublisherToMessageTopic, AddSubscriberToMessageTopic, CreateMessageTopic,
    PublishToMessageTopic, RemovePublisherFromMessageTopic, RemoveSubscriberFromMessageTopic,
};
use crate::task_topic_model::{
    AddPublisherToTaskTopic, AddSubscriberToTaskTopic, CreateTaskTopic, PublishToTaskTopic,
    RemovePublisherFromTaskTopic, RemoveSubscriberFromTaskTopic,
};
use crate::types::TopicType;
use vstd::prelude::*;

verus! {

/// One mutation of the broker, waiting to be mirrored by the store.
#[derive(Debug, Clone, PartialEq)]
pub enum TopicEvent {
    CreateMessageTopic(EventCreateMessageTopicData),
    DeleteMessageTopic(EventDeleteMessageTopicData),
    PublishMessageTopic(EventPublishToMessageTopicData),
    AddPublisherMessageTopic(EventAddPublisherToMessageTopicData),
    RemovePublisherMessageTopic(EventRemovePublisherFromMessageTopicData),
    AddSubscriberMessageTopic(EventAddSubscriberToMessageTopicData),
    RemoveSubscriberMessageTopic(EventRemoveSubscriberFromMessageTopicData),
    FetchDataMessageTopic(EventFetchDataFromMessageTopicData),
    ResetIndexMessageTopic(EventResetIndexOfMessageTopicData),
    CreateTaskTopic(EventCreateTaskTopicData),
    DeleteTaskTopic(EventDeleteTaskTopicData),
    PublishTaskTopic(EventPublishToTaskTopicData),
    AddSubscriberTaskTopic(EventAddSubscriberToTaskTopicData),
    RemoveSubscriberTaskTopic(EventRemoveSubscriberFromTaskTopicData),
    AddPublisherTaskTopic(EventAddPublisherToTaskTopicData),
    RemovePublisherTaskTopic(EventRemovePublisherFromTaskTopicData),
}

/// A message topic was created.
#[derive(Debug, Clone, PartialEq)]
pub struct EventCreateMessageTopicData {
    pub data: CreateMessageTopic,
}

impl EventCreateMessageTopicData {
    pub fn new(data: CreateMessageTopic) -> (r: Self)
        ensures
            r.data == data,
    {
        Self { data }
    }
}

/// A message topic was deleted.
#[derive(Debug, Clone, PartialEq)]
pub struct EventDeleteMessageTopicData {
    pub topic_name: String,
}

impl EventDeleteMessageTopicData {
    pub fn new(topic_name: String) -> (r: Self)
        ensures
            r.topic_name == topic_name,
    {
        Self { topic_name }
    }
}

/// A payload was published on a message topic.
#[derive(Debug, Clone, PartialEq)]
pub struct EventPublishToMessageTopicData {
    pub topic_name: String,
    pub data: PublishToMessageTopic<TopicType>,
}

impl EventPublishToMessageTopicData {
    pub fn new(topic_name: String, data: PublishToMessageTopic<TopicType>) -> (r: Self)
        ensures
            r.topic_name == topic_name,
            r.data == data,
    {
        Self { topic_name, data }
    }
}

/// A publisher was registered on a message topic.
#[derive(Debug, Clone, PartialEq)]
pub struct EventAddPublisherToMessageTopicData {
    pub topic_name: String,
    pub data: AddPublisherToMessageTopic,
}

impl EventAddPublisherToMessageTopicData {
    pub fn new(topic_name: String, data: AddPublisherToMessageTopic) -> (r: Self)
        ensures
            r.topic_name == topic_name,
            r.data == data,
    {
        Self { topic_name, data }
    }
}

/// A publisher was unregistered from a message topic.
#[derive(Debug, Clone, PartialEq)]
pub struct EventRemovePublisherFromMessageTopicData {
    pub topic_name: String,
    pub data: RemovePublisherFromMessageTopic,
}

impl EventRemovePublisherFromMessageTopicData {
    pub fn new(topic_name: String, data: RemovePublisherFromMessageTopic) -> (r: Self)
        ensures
            r.topic_name == topic_name,
            r.data == data,
    {
        Self { topic_name, data }
    }
}

/// A subscriber was registered on a message topic.
#[derive(Debug, Clone, PartialEq)]
pub struct EventAddSubscriberToMessageTopicData {
    pub topic_name: String,
    pub data: AddSubscriberToMessageTopic,
}

impl EventAddSubscriberToMessageTopicData {
    pub fn new(topic_name: String, data: AddSubscriberToMessageTopic) -> (r: Self)
        ensures
            r.topic_name == topic_name,
            r.data == data,
    {
        Self { topic_name, data }
    }
}

/// A subscriber was unregistered from a message topic.
#[derive(Debug, Clone, PartialEq)]
pub struct EventRemoveSubscriberFromMessageTopicData {
    pub topic_name: String,
    pub data: RemoveSubscriberFromMessageTopic,
}

impl EventRemoveSubscriberFromMessageTopicData {
    pub fn new(topic_name: String, data: RemoveSubscriberFromMessageTopic) -> (r: Self)
        ensures
            r.topic_name == topic_name,
            r.data == data,
    {
        Self { topic_name, data }
    }
}

/// A subscriber fetched from a message topic; its cursor is now `subscriber_index`.
#[derive(Debug, Clone, PartialEq)]
pub struct EventFetchDataFromMessageTopicData {
    pub topic_name: String,
    pub subscriber_name: String,
    pub subscriber_index: usize,
}

impl EventFetchDataFromMessageTopicData {
    pub fn new(topic_name: String, subscriber_name: String, subscriber_index: usize) -> (r: Self)
        ensures
            r.topic_name == topic_name,
            r.subscriber_name == subscriber_name,
            r.subscriber_index == subscriber_index,
    {
        Self { topic_name, subscriber_name, subscriber_index }
    }
}

/// A message topic was compacted: its index and every cursor went down by `index_subtrahend`.
#[derive(Debug, Clone, PartialEq)]
pub struct EventResetIndexOfMessageTopicData {
    pub topic_name: String,
    pub index_subtrahend: usize,
}

impl EventResetIndexOfMessageTopicData {
    pub fn new(topic_name: String, index_subtrahend: usize) -> (r: Self)
        ensures
            r.topic_name == topic_name,
            r.index_subtrahend == index_subtrahend,
    {
        Self { topic_name, index_subtrahend }
    }
}

/// A task topic was created.
#[derive(Debug, Clone, PartialEq)]
pub struct EventCreateTaskTopicData {
    pub data: CreateTaskTopic,
}

impl EventCreateTaskTopicData {
    pub fn new(data: CreateTaskTopic) -> (r: Self)
        ensures
            r.data == data,
    {
        Self { data }
    }
}

/// A task topic was deleted.
#[derive(Debug, Clone, PartialEq)]
pub struct EventDeleteTaskTopicData {
    pub topic_name: String,
}

impl EventDeleteTaskTopicData {
    pub fn new(topic_name: String) -> (r: Self)
        ensures
            r.topic_name == topic_name,
    {
        Self { topic_name }
    }
}

/// A task was published on a task topic.
#[derive(Debug, Clone, PartialEq)]
pub struct EventPublishToTaskTopicData {
    pub topic_name: String,
    pub data: PublishToTaskTopic<TopicType>,
}

impl EventPublishToTaskTopicData {
    pub fn new(topic_name: String, data: PublishToTaskTopic<TopicType>) -> (r: Self)
        ensures
            r.topic_name == topic_name,
            r.data == data,
    {
        Self { topic_name, data }
    }
}

/// A subscriber was registered on a task topic.
#[derive(Debug, Clone, PartialEq)]
pub struct EventAddSubscriberToTaskTopicData {
    pub topic_name: String,
    pub data: AddSubscriberToTaskTopic,
}

impl EventAddSubscriberToTaskTopicData {
    pub fn new(topic_name: String, data: AddSubscriberToTaskTopic) -> (r: Self)
        ensures
            r.topic_name == topic_name,
            r.data == data,
    {
        Self { topic_name, data }
    }
}

/// A subscriber was unregistered from a task topic.
#[derive(Debug, Clone, PartialEq)]
pub struct EventRemoveSubscriberFromTaskTopicData {
    pub topic_name: String,
    pub data: RemoveSubscriberFromTaskTopic,
}

impl EventRemoveSubscriberFromTaskTopicData {
    pub fn new(topic_name: String, data: RemoveSubscriberFromTaskTopic) -> (r: Self)
        ensures
            r.topic_name == topic_name,
            r.data == data,
    {
        Self { topic_name, data }
    }
}

/// A publisher was registered on a task topic.
#[derive(Debug, Clone, PartialEq)]
pub struct EventAddPublisherToTaskTopicData {
    pub topic_name: String,
    pub data: AddPublisherToTaskTopic,
}

impl EventAddPublisherToTaskTopicData {
    pub fn new(topic_name: String, data: AddPublisherToTaskTopic) -> (r: Self)
        ensures
            r.topic_name == topic_name,
            r.data == data,
    {
        Self { topic_name, data }
    }
}

/// A publisher was unregistered from a task topic.
#[derive(Debug, Clone, PartialEq)]
pub struct EventRemovePublisherFromTaskTopicData {
    pub topic_name: String,
    pub data: RemovePublisherFromTaskTopic,
}

impl EventRemovePublisherFromTaskTopicData {
    pub fn new(topic_name: String, data: RemovePublisherFromTaskTopic) -> (r: Self)
        ensures
            r.topic_name == topic_name,
            r.data == data,
    {
        Self { topic_name, data }
    }
}

} // verus!
