//! Values exchanged with the users of task topics.

use vstd::prelude::*;

verus! {

/// What a reader sees of a task topic: its name and the names of its
/// subscribers.
#[derive(Debug, Clone, PartialEq)]
pub struct TaskTopicModel {
    pub name: String,
    pub subscriber: Vec<String>,
}

impl TaskTopicModel {
    pub fn new(name: String, subscriber: Vec<String>) -> (r: Self)
        ensures
            r.name == name,
            r.subscriber == subscriber,
    {
        Self { name, subscriber }
    }
}

/// A request to create a task topic.
#[derive(Debug, Clone, PartialEq)]
pub struct CreateTaskTopic {
    pub name: String,
}

impl CreateTaskTopic {
    pub fn new(name: String) -> (r: Self)
        ensures
            r.name == name,
    {
        Self { name }
    }
}

/// A request to rename a task topic.
#[derive(Debug, Clone, PartialEq)]
pub struct UpdateTaskTopic {
    pub name: String,
}

impl UpdateTaskTopic {
    pub fn new(name: String) -> (r: Self)
        ensures
            r.name == name,
    {
        Self { name }
    }
}

/// A task to publish on a task topic.
#[derive(Debug, Clone, PartialEq)]
pub struct PublishToTaskTopic<T> {
    pub data: T,
}

impl<T> PublishToTaskTopic<T> {
    pub fn new(data: T) -> (r: Self)
        ensures
            r.data == data,
    {
        Self { data }
    }
}

/// A publisher to register on a task topic.
#[derive(Debug, Clone, PartialEq)]
pub struct AddPublisherToTaskTopic {
    pub publisher: String,
}

impl AddPublisherToTaskTopic {
    pub fn new(publisher: String) -> (r: Self)
        ensures
            r.publisher == publisher,
    {
        Self { publisher }
    }
}

/// A publisher to unregister from a task topic.
#[derive(Debug, Clone, PartialEq)]
pub struct RemovePublisherFromTaskTopic {
    pub publisher: String,
}

impl RemovePublisherFromTaskTopic {
    pub fn new(publisher: String) -> (r: Self)
        ensures
            r.publisher == publisher,
    {
        Self { publisher }
    }
}

/// A subscriber to register on a task topic.
#[derive(Debug, Clone, PartialEq)]
pub struct AddSubscriberToTaskTopic {
    pub subscriber: String,
}

impl AddSubscriberToTaskTopic {
    pub fn new(subscriber: String) -> (r: Self)
        ensures
            r.subscriber == subscriber,
    {
        Self { subscriber }
    }
}

/// A subscriber to unregister from a task topic.
#[derive(Debug, Clone, PartialEq)]
pub struct RemoveSubscriberFromTaskTopic {
    pub subscriber: String,
}

impl RemoveSubscriberFromTaskTopic {
    pub fn new(subscriber: String) -> (r: Self)
        ensures
            r.subscriber == subscriber,
    {
        Self { subscriber }
    }
}

/// Whether a task waits for a subscriber.
#[derive(Debug, Clone, PartialEq)]
pub struct NewTasks {
    pub new_tasks: bool,
}

impl NewTasks {
    pub fn new(new_tasks: bool) -> (r: Self)
        ensures
            r.new_tasks == new_tasks,
    {
        Self { new_tasks }
    }
}

/// Tasks handed to a subscriber.
#[derive(Debug, Clone, PartialEq)]
pub struct Task<T> {
    pub data: Vec<T>,
}

impl<T> Task<T> {
    pub fn new(data: Vec<T>) -> (r: Self)
        ensures
            r.data == data,
    {
        Self { data }
    }
}

} // verus!
