//! Values exchanged with the users of message topics.

use vstd::prelude::*;

verus! {

/// What a reader sees of a message topic: its name, its index and the names
/// of its subscribers (their cursors are left out).
#[derive(Debug, Clone, PartialEq)]
pub struct MessageTopicModel {
    pub name: String,
    pub index: usize,
    pub subscriber: Vec<String>,
}

impl MessageTopicModel {
    pub fn new(name: String, index: usize, subscriber: Vec<String>) -> (r: Self)
        ensures
            r.name == name,
            r.index == index,
            r.subscriber == subscriber,
    {
        Self { name, index, subscriber }
    }
}

/// A request to create a message topic.
#[derive(Debug, Clone, PartialEq)]
pub struct CreateMessageTopic {
    pub name: String,
}

impl CreateMessageTopic {
    pub fn new(name: String) -> (r: Self)
        ensures
            r.name == name,
    {
        Self { name }
    }
}

/// A request to rename a message topic.
#[derive(Debug, Clone, PartialEq)]
pub struct UpdateMessageTopic {
    pub name: String,
}

impl UpdateMessageTopic {
    pub fn new(name: String) -> (r: Self)
        ensures
            r.name == name,
    {
        Self { name }
    }
}

/// A payload to publish on a message topic.
#[derive(Debug, Clone, PartialEq)]
pub struct PublishToMessageTopic<T> {
    pub data: T,
}

impl<T> PublishToMessageTopic<T> {
    pub fn new(data: T) -> (r: Self)
        ensures
            r.data == data,
    {
        Self { data }
    }
}

/// A publisher to register on a message topic.
#[derive(Debug, Clone, PartialEq)]
pub struct AddPublisherToMessageTopic {
    pub publisher: String,
}

impl AddPublisherToMessageTopic {
    pub fn new(publisher: String) -> (r: Self)
        ensures
            r.publisher == publisher,
    {
        Self { publisher }
    }
}

/// A publisher to unregister from a message topic.
#[derive(Debug, Clone, PartialEq)]
pub struct RemovePublisherFromMessageTopic {
    pub publisher: String,
}

impl RemovePublisherFromMessageTopic {
    pub fn new(publisher: String) -> (r: Self)
        ensures
            r.publisher == publisher,
    {
        Self { publisher }
    }
}

/// A subscriber to register on a message topic.
#[derive(Debug, Clone, PartialEq)]
pub struct AddSubscriberToMessageTopic {
    pub subscriber: String,
}

impl AddSubscriberToMessageTopic {
    pub fn new(subscriber: String) -> (r: Self)
        ensures
            r.subscriber == subscriber,
    {
        Self { subscriber }
    }
}

/// A subscriber to unregister from a message topic.
#[derive(Debug, Clone, PartialEq)]
pub struct RemoveSubscriberFromMessageTopic {
    pub subscriber: String,
}

impl RemoveSubscriberFromMessageTopic {
    pub fn new(subscriber: String) -> (r: Self)
        ensures
            r.subscriber == subscriber,
    {
        Self { subscriber }
    }
}

/// Whether a subscriber has payloads it has not fetched yet.
#[derive(Debug, Clone, PartialEq)]
pub struct NewDataMessageTopic {
    pub new_data: bool,
}

impl NewDataMessageTopic {
    pub fn new(new_data: bool) -> (r: Self)
        ensures
            r.new_data == new_data,
    {
        Self { new_data }
    }
}

/// The payloads handed to a subscriber by one fetch.
#[derive(Debug, Clone, PartialEq)]
pub struct DataMessageTopic<T> {
    pub data: Vec<T>,
}

impl<T> DataMessageTopic<T> {
    pub fn new(data: Vec<T>) -> (r: Self)
        ensures
            r.data == data,
    {
        Self { data }
    }
}

} // verus!
