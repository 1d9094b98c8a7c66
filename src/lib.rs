//! An in-memory publish/subscribe broker: fan-out message topics with
//! per-subscriber cursors, single-delivery task topics, and the queue of
//! persistence events that mirrors every mutation to a durable store.

pub mod event;
pub mod message_topic;
pub mod message_topic_model;
pub mod message_topic_service;
pub mod names;
pub mod queue;
pub mod state;
pub mod task_topic;
pub mod task_topic_model;
pub mod task_topic_service;
pub mod types;
