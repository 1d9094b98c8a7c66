//! The broker's operations on message topics. Each mutation changes the
//! topic in memory first and then enqueues the one persistence event that
//! describes it; a request whose precondition fails changes nothing and
//! enqueues nothing.

use crate::event::{
    EventAddPublisherToMessageTopicData, EventAddSubscriberToMessageTopicData,
    EventCreateMessageTopicData, EventDeleteMessageTopicData, EventFetchDataFromMessageTopicData,
    EventPublishToMessageTopicData, EventRemovePublisherFromMessageTopicData,
    EventRemoveSubscriberFromMessageTopicData, EventResetIndexOfMessageTopicData, TopicEvent,
};
use crate::message_topic::{is_model_of, MessageTopic, MessageTopicView, PublishOutcome};
use crate::message_topic_model::{
    AddPublisherToMessageTopic, AddSubscriberToMessageTopic, CreateMessageTopic, DataMessageTopic,
    MessageTopicModel, NewDataMessageTopic, PublishToMessageTopic, RemovePublisherFromMessageTopic,
    RemoveSubscriberFromMessageTopic,
};
use crate::state::{EventQueue, State};
use crate::types::TopicType;
use vstd::prelude::*;

verus! {

/// The message topics of `s` with the one named `n` replaced by `t`.
pub open spec fn message_views_with(s: State, n: Seq<char>, t: MessageTopicView<TopicType>) -> Seq<
    MessageTopicView<TopicType>,
> {
    s.message_views().update(s.message_position(n), t)
}

/// A message topic named `n` that holds nothing.
pub open spec fn empty_message_topic(n: Seq<char>) -> MessageTopicView<TopicType> {
    MessageTopicView {
        name: n,
        index: 0,
        data: Seq::empty(),
        subscribers: Seq::empty(),
        publishers: Seq::empty(),
    }
}

/// Replacing the message topic at `i` by one of the same name keeps the
/// broker well formed.
proof fn lemma_message_topic_replaced(old_state: State, new_state: State, i: int)
    requires
        old_state.wf(),
        0 <= i < old_state.message_topics@.len(),
        new_state.message_topics@.len() == old_state.message_topics@.len(),
        forall|j: int|
            0 <= j < old_state.message_topics@.len() && j != i ==> new_state.message_topics@[j]
                == old_state.message_topics@[j],
        new_state.message_topics@[i].wf(),
        new_state.message_topics@[i]@.name == old_state.message_topics@[i]@.name,
        new_state.task_topics == old_state.task_topics,
    ensures
        new_state.wf(),
        new_state.message_views() == old_state.message_views().update(i, new_state.message_topics@[i]@),
        new_state.message_topic_names() == old_state.message_topic_names(),
{
    assert(new_state.message_views() =~= old_state.message_views().update(i, new_state.message_topics@[i]@));
    assert(new_state.message_topic_names() =~= old_state.message_topic_names());
    assert forall|j: int| 0 <= j < new_state.message_topics@.len() implies #[trigger] new_state.message_topics@[j].wf() by {
        if j != i {
            assert(old_state.message_topics@[j].wf());
        }
    }
}

/// Every message topic, as readers see it, in creation order.
pub fn get_all_message_topics(state: &State) -> (r: Vec<MessageTopicModel>)
    requires
        state.wf(),
    ensures
        r@.len() == state.message_views().len(),
        forall|i: int| 0 <= i < r@.len() ==> is_model_of(#[trigger] r@[i], state.message_views()[i]),
{
    let mut r: Vec<MessageTopicModel> = Vec::new();
    let mut i: usize = 0;
    while i < state.message_topics.len()
        invariant
            state.wf(),
            i <= state.message_topics@.len(),
            r@.len() == i,
            forall|k: int| 0 <= k < i ==> is_model_of(#[trigger] r@[k], state.message_views()[k]),
        decreases state.message_topics@.len() - i,
    {
        r.push(state.message_topics[i].to_model());
        i = i + 1;
    }
    r
}

/// The message topic named `topic_name`, as readers see it.
pub fn get_message_topic(state: &State, topic_name: String) -> (r: Option<MessageTopicModel>)
    requires
        state.wf(),
    ensures
        match r {
            Some(m) => state.has_message_topic(topic_name@) && is_model_of(m, state.message_topic(topic_name@)),
            None => !state.has_message_topic(topic_name@),
        },
{
    match state.find_message_topic(&topic_name) {
        Some(i) => Some(state.message_topics[i].to_model()),
        None => None,
    }
}

fn create_create_message_topic_event(queue: &mut EventQueue, dts: CreateMessageTopic)
    ensures
        final(queue)@ == old(queue)@.push(
            TopicEvent::CreateMessageTopic(EventCreateMessageTopicData { data: dts }),
        ),
{
    queue.enqueue(TopicEvent::CreateMessageTopic(EventCreateMessageTopicData::new(dts)));
}

/// Creates an empty message topic named `dts.name`; `None` if one exists.
pub fn create_message_topic(state: &mut State, dts: CreateMessageTopic) -> (r: Option<MessageTopicModel>)
    requires
        old(state).wf(),
    ensures
        final(state).wf(),
        match r {
            Some(m) => {
                &&& !old(state).has_message_topic(dts.name@)
                &&& is_model_of(m, empty_message_topic(dts.name@))
                &&& final(state).message_views() == old(state).message_views().push(empty_message_topic(dts.name@))
                &&& final(state).task_topics == old(state).task_topics
                &&& final(state).event_queue@ == old(state).event_queue@.push(
                    TopicEvent::CreateMessageTopic(EventCreateMessageTopicData { data: dts }),
                )
            },
            None => old(state).has_message_topic(dts.name@) && *final(state) == *old(state),
        },
{
    match state.find_message_topic(&dts.name) {
        Some(_) => None,
        None => {
            let ghost before = *state;
            let topic: MessageTopic<TopicType> = MessageTopic::new(dts.name.clone());
            let model = topic.to_model();
            state.message_topics.push(topic);
            proof {
                assert(state.message_views() =~= before.message_views().push(empty_message_topic(dts.name@)));
                assert(state.message_topic_names() =~= before.message_topic_names().push(dts.name@));
                assert forall|j: int| 0 <= j < state.message_topics@.len() implies #[trigger] state.message_topics@[j].wf() by {
                    if j < before.message_topics@.len() {
                        assert(before.message_topics@[j].wf());
                    }
                }
            }
            create_create_message_topic_event(&mut state.event_queue, dts);
            Some(model)
        },
    }
}

fn create_delete_message_topic_event(queue: &mut EventQueue, topic_name: String)
    ensures
        final(queue)@ == old(queue)@.push(
            TopicEvent::DeleteMessageTopic(EventDeleteMessageTopicData { topic_name }),
        ),
{
    queue.enqueue(TopicEvent::DeleteMessageTopic(EventDeleteMessageTopicData::new(topic_name)));
}

/// Deletes the message topic named `topic_name` and returns what readers saw
/// of it; `None` if there is none.
pub fn delete_message_topic(state: &mut State, topic_name: String) -> (r: Option<MessageTopicModel>)
    requires
        old(state).wf(),
    ensures
        final(state).wf(),
        match r {
            Some(m) => {
                &&& old(state).has_message_topic(topic_name@)
                &&& is_model_of(m, old(state).message_topic(topic_name@))
                &&& final(state).message_views() == old(state).message_views().remove(
                    old(state).message_position(topic_name@),
                )
                &&& final(state).task_topics == old(state).task_topics
                &&& final(state).event_queue@ == old(state).event_queue@.push(
                    TopicEvent::DeleteMessageTopic(EventDeleteMessageTopicData { topic_name }),
                )
            },
            None => !old(state).has_message_topic(topic_name@) && *final(state) == *old(state),
        },
{
    match state.find_message_topic(&topic_name) {
        Some(i) => {
            let ghost before = *state;
            let topic = state.message_topics.remove(i);
            let model = topic.to_model();
            proof {
                assert(state.message_views() =~= before.message_views().remove(i as int));
                assert(state.message_topic_names() =~= before.message_topic_names().remove(i as int));
                assert forall|j: int| 0 <= j < state.message_topics@.len() implies #[trigger] state.message_topics@[j].wf() by {
                    if j < i {
                        assert(before.message_topics@[j].wf());
                    } else {
                        assert(before.message_topics@[j + 1].wf());
                    }
                }
            }
            create_delete_message_topic_event(&mut state.event_queue, topic_name);
            Some(model)
        },
        None => None,
    }
}

fn create_add_publisher_to_message_topic_event(
    queue: &mut EventQueue,
    topic_name: String,
    dts: AddPublisherToMessageTopic,
)
    ensures
        final(queue)@ == old(queue)@.push(
            TopicEvent::AddPublisherMessageTopic(EventAddPublisherToMessageTopicData { topic_name, data: dts }),
        ),
{
    queue.enqueue(
        TopicEvent::AddPublisherMessageTopic(EventAddPublisherToMessageTopicData::new(topic_name, dts)),
    );
}

/// Registers `dts.publisher` on the message topic named `topic_name`. Nothing
/// happens if there is no such topic or the publisher is registered already.
pub fn add_publisher_to_message_topic(state: &mut State, topic_name: String, dts: AddPublisherToMessageTopic)
    requires
        old(state).wf(),
    ensures
        final(state).wf(),
        if old(state).has_message_topic(topic_name@) && !old(state).message_topic(topic_name@).is_publisher(dts.publisher@) {
            &&& final(state).message_views() == message_views_with(
                *old(state),
                topic_name@,
                old(state).message_topic(topic_name@).with_publisher(dts.publisher@),
            )
            &&& final(state).task_topics == old(state).task_topics
            &&& final(state).event_queue@ == old(state).event_queue@.push(
                TopicEvent::AddPublisherMessageTopic(EventAddPublisherToMessageTopicData { topic_name, data: dts }),
            )
        } else {
            *final(state) == *old(state)
        },
{
    match state.find_message_topic(&topic_name) {
        Some(i) => {
            if !state.message_topics[i].is_publisher(dts.publisher.clone()) {
                let ghost before = *state;
                state.message_topics[i].add_publisher(dts.publisher.clone());
                proof {
                    lemma_message_topic_replaced(before, *state, i as int);
                }
                create_add_publisher_to_message_topic_event(&mut state.event_queue, topic_name, dts);
            }
        },
        None => {},
    }
}

fn create_remove_publisher_from_message_topic_event(
    queue: &mut EventQueue,
    topic_name: String,
    dts: RemovePublisherFromMessageTopic,
)
    ensures
        final(queue)@ == old(queue)@.push(
            TopicEvent::RemovePublisherMessageTopic(
                EventRemovePublisherFromMessageTopicData { topic_name, data: dts },
            ),
        ),
{
    queue.enqueue(
        TopicEvent::RemovePublisherMessageTopic(
            EventRemovePublisherFromMessageTopicData::new(topic_name, dts),
        ),
    );
}

/// Unregisters `dts.publisher` from the message topic named `topic_name`.
/// Nothing happens if there is no such topic or the publisher is not
/// registered.
pub fn remove_publisher_from_message_topic(
    state: &mut State,
    topic_name: String,
    dts: RemovePublisherFromMessageTopic,
)
    requires
        old(state).wf(),
    ensures
        final(state).wf(),
        if old(state).has_message_topic(topic_name@) && old(state).message_topic(topic_name@).is_publisher(dts.publisher@) {
            &&& final(state).message_views() == message_views_with(
                *old(state),
                topic_name@,
                old(state).message_topic(topic_name@).without_publisher(dts.publisher@),
            )
            &&& final(state).task_topics == old(state).task_topics
            &&& final(state).event_queue@ == old(state).event_queue@.push(
                TopicEvent::RemovePublisherMessageTopic(
                    EventRemovePublisherFromMessageTopicData { topic_name, data: dts },
                ),
            )
        } else {
            *final(state) == *old(state)
        },
{
    match state.find_message_topic(&topic_name) {
        Some(i) => {
            if state.message_topics[i].is_publisher(dts.publisher.clone()) {
                let ghost before = *state;
                state.message_topics[i].remove_publisher(dts.publisher.clone());
                proof {
                    lemma_message_topic_replaced(before, *state, i as int);
                }
                create_remove_publisher_from_message_topic_event(&mut state.event_queue, topic_name, dts);
            }
        },
        None => {},
    }
}

fn create_reset_index_of_message_topic_event(
    queue: &mut EventQueue,
    topic_name: String,
    index_subtrahend: usize,
)
    ensures
        final(queue)@ == old(queue)@.push(
            TopicEvent::ResetIndexMessageTopic(
                EventResetIndexOfMessageTopicData { topic_name, index_subtrahend },
            ),
        ),
{
    queue.enqueue(
        TopicEvent::ResetIndexMessageTopic(
            EventResetIndexOfMessageTopicData::new(topic_name, index_subtrahend),
        ),
    );
}

fn create_publish_to_message_topic_event(
    queue: &mut EventQueue,
    topic_name: String,
    dts: PublishToMessageTopic<TopicType>,
)
    ensures
        final(queue)@ == old(queue)@.push(
            TopicEvent::PublishMessageTopic(EventPublishToMessageTopicData { topic_name, data: dts }),
        ),
{
    queue.enqueue(
        TopicEvent::PublishMessageTopic(EventPublishToMessageTopicData::new(topic_name, dts)),
    );
}

/// The events that a publish on the topic named `n` enqueues: the
/// compaction, if there was one, then the publish itself.
pub open spec fn publish_events(
    n: String,
    dts: PublishToMessageTopic<TopicType>,
    outcome: PublishOutcome,
) -> Seq<TopicEvent> {
    let publish = TopicEvent::PublishMessageTopic(EventPublishToMessageTopicData { topic_name: n, data: dts });
    match outcome {
        PublishOutcome::Appended => seq![publish],
        PublishOutcome::AppendedAfterReset(m) => seq![
            TopicEvent::ResetIndexMessageTopic(
                EventResetIndexOfMessageTopicData { topic_name: n, index_subtrahend: m },
            ),
            publish,
        ],
        PublishOutcome::Rejected => seq![],
    }
}

/// Publishes `dts.data` on the message topic named `topic_name` on behalf of
/// `publisher_identifier`. Nothing happens if there is no such topic or the
/// publisher is not registered on it.
pub fn publish_to_message_topic(
    state: &mut State,
    topic_name: String,
    publisher_identifier: String,
    dts: PublishToMessageTopic<TopicType>,
)
    requires
        old(state).wf(),
    ensures
        final(state).wf(),
        if old(state).has_message_topic(topic_name@) && old(state).message_topic(topic_name@).is_publisher(publisher_identifier@) {
            let t = old(state).message_topic(topic_name@);
            &&& final(state).message_views() == message_views_with(
                *old(state),
                topic_name@,
                t.published(seq![dts.data]),
            )
            &&& final(state).task_topics == old(state).task_topics
            &&& final(state).event_queue@ == old(state).event_queue@ + publish_events(
                topic_name,
                dts,
                t.publish_outcome(1),
            )
        } else {
            *final(state) == *old(state)
        },
{
    match state.find_message_topic(&topic_name) {
        Some(i) => {
            if state.message_topics[i].is_publisher(publisher_identifier) {
                let ghost before = *state;
                let outcome = state.message_topics[i].publish(dts.data.clone());
                proof {
                    lemma_message_topic_replaced(before, *state, i as int);
                }
                let ghost queued = state.event_queue@;
                match outcome {
                    PublishOutcome::Appended => {
                        create_publish_to_message_topic_event(&mut state.event_queue, topic_name, dts);
                    },
                    PublishOutcome::AppendedAfterReset(m) => {
                        create_reset_index_of_message_topic_event(
                            &mut state.event_queue,
                            topic_name.clone(),
                            m,
                        );
                        create_publish_to_message_topic_event(&mut state.event_queue, topic_name, dts);
                    },
                    PublishOutcome::Rejected => {},
                }
                proof {
                    assert(state.event_queue@ =~= queued + publish_events(topic_name, dts, outcome));
                }
            }
        },
        None => {},
    }
}

fn create_add_subscriber_to_message_topic_event(
    queue: &mut EventQueue,
    topic_name: String,
    dts: AddSubscriberToMessageTopic,
)
    ensures
        final(queue)@ == old(queue)@.push(
            TopicEvent::AddSubscriberMessageTopic(
                EventAddSubscriberToMessageTopicData { topic_name, data: dts },
            ),
        ),
{
    queue.enqueue(
        TopicEvent::AddSubscriberMessageTopic(
            EventAddSubscriberToMessageTopicData::new(topic_name, dts),
        ),
    );
}

/// Subscribes `dts.subscriber` to the message topic named `topic_name`, from
/// its current index on. Nothing happens if there is no such topic or the
/// subscriber is registered already.
pub fn add_subscriber_to_message_topic(
    state: &mut State,
    topic_name: String,
    dts: AddSubscriberToMessageTopic,
)
    requires
        old(state).wf(),
    ensures
        final(state).wf(),
        if old(state).has_message_topic(topic_name@) && !old(state).message_topic(topic_name@).has_subscriber(dts.subscriber@) {
            &&& final(state).message_views() == message_views_with(
                *old(state),
                topic_name@,
                old(state).message_topic(topic_name@).with_subscriber(dts.subscriber@),
            )
            &&& final(state).task_topics == old(state).task_topics
            &&& final(state).event_queue@ == old(state).event_queue@.push(
                TopicEvent::AddSubscriberMessageTopic(
                    EventAddSubscriberToMessageTopicData { topic_name, data: dts },
                ),
            )
        } else {
            *final(state) == *old(state)
        },
{
    match state.find_message_topic(&topic_name) {
        Some(i) => {
            if state.message_topics[i].get_subscriber_offset(dts.subscriber.clone()).is_none() {
                let ghost before = *state;
                state.message_topics[i].add_subscriber(dts.subscriber.clone());
                proof {
                    lemma_message_topic_replaced(before, *state, i as int);
                }
                create_add_subscriber_to_message_topic_event(&mut state.event_queue, topic_name, dts);
            }
        },
        None => {},
    }
}

fn create_remove_subscriber_from_message_topic_event(
    queue: &mut EventQueue,
    topic_name: String,
    dts: RemoveSubscriberFromMessageTopic,
)
    ensures
        final(queue)@ == old(queue)@.push(
            TopicEvent::RemoveSubscriberMessageTopic(
                EventRemoveSubscriberFromMessageTopicData { topic_name, data: dts },
            ),
        ),
{
    queue.enqueue(
        TopicEvent::RemoveSubscriberMessageTopic(
            EventRemoveSubscriberFromMessageTopicData::new(topic_name, dts),
        ),
    );
}

/// Unsubscribes `dts.subscriber` from the message topic named `topic_name`.
/// Nothing happens if there is no such topic or the subscriber is not
/// registered.
pub fn remove_subscriber_from_message_topic(
    state: &mut State,
    topic_name: String,
    dts: RemoveSubscriberFromMessageTopic,
)
    requires
        old(state).wf(),
    ensures
        final(state).wf(),
        if old(state).has_message_topic(topic_name@) && old(state).message_topic(topic_name@).has_subscriber(dts.subscriber@) {
            &&& final(state).message_views() == message_views_with(
                *old(state),
                topic_name@,
                old(state).message_topic(topic_name@).without_subscriber(dts.subscriber@),
            )
            &&& final(state).task_topics == old(state).task_topics
            &&& final(state).event_queue@ == old(state).event_queue@.push(
                TopicEvent::RemoveSubscriberMessageTopic(
                    EventRemoveSubscriberFromMessageTopicData { topic_name, data: dts },
                ),
            )
        } else {
            *final(state) == *old(state)
        },
{
    match state.find_message_topic(&topic_name) {
        Some(i) => {
            if state.message_topics[i].get_subscriber_offset(dts.subscriber.clone()).is_some() {
                let ghost before = *state;
                state.message_topics[i].remove_subscriber(dts.subscriber.clone());
                proof {
                    lemma_message_topic_replaced(before, *state, i as int);
                }
                create_remove_subscriber_from_message_topic_event(&mut state.event_queue, topic_name, dts);
            }
        },
        None => {},
    }
}

/// Whether subscriber `identifier` has payloads to fetch on the message
/// topic named `topic_name`; `None` if there is no such topic or it does not
/// subscribe.
pub fn is_there_new_data_for_subscriber(state: &State, topic_name: String, identifier: String) -> (r:
    Option<NewDataMessageTopic>)
    requires
        state.wf(),
    ensures
        match r {
            Some(d) => {
                let t = state.message_topic(topic_name@);
                &&& state.has_message_topic(topic_name@)
                &&& t.has_subscriber(identifier@)
                &&& d.new_data == (t.cursor(identifier@) < t.index)
            },
            None => !(state.has_message_topic(topic_name@) && state.message_topic(topic_name@).has_subscriber(identifier@)),
        },
{
    match state.find_message_topic(&topic_name) {
        Some(i) => match state.message_topics[i].get_subscriber_offset(identifier) {
            Some(cursor) => Some(NewDataMessageTopic { new_data: cursor < state.message_topics[i].get_index() }),
            None => None,
        },
        None => None,
    }
}

fn create_fetch_data_from_topic_event(
    queue: &mut EventQueue,
    topic_name: String,
    subscriber_name: String,
    subscriber_index: usize,
)
    ensures
        final(queue)@ == old(queue)@.push(
            TopicEvent::FetchDataMessageTopic(
                EventFetchDataFromMessageTopicData { topic_name, subscriber_name, subscriber_index },
            ),
        ),
{
    queue.enqueue(
        TopicEvent::FetchDataMessageTopic(
            EventFetchDataFromMessageTopicData::new(topic_name, subscriber_name, subscriber_index),
        ),
    );
}

/// Hands subscriber `identifier` the payloads of the message topic named
/// `topic_name` that it has not fetched, in order, and moves its cursor to the
/// index; the new cursor goes to the store. `None` if there is no such topic
/// or it does not subscribe.
pub fn get_new_data_for_subscriber(state: &mut State, topic_name: String, identifier: String) -> (r:
    Option<DataMessageTopic<TopicType>>)
    requires
        old(state).wf(),
    ensures
        final(state).wf(),
        match r {
            Some(d) => {
                let t = old(state).message_topic(topic_name@);
                &&& old(state).has_message_topic(topic_name@)
                &&& t.has_subscriber(identifier@)
                &&& d.data@ == t.pending_for(identifier@)
                &&& final(state).message_views() == message_views_with(
                    *old(state),
                    topic_name@,
                    t.fetched_by(identifier@),
                )
                &&& final(state).task_topics == old(state).task_topics
                &&& final(state).event_queue@ == old(state).event_queue@.push(
                    TopicEvent::FetchDataMessageTopic(
                        EventFetchDataFromMessageTopicData {
                            topic_name,
                            subscriber_name: identifier,
                            subscriber_index: t.index as usize,
                        },
                    ),
                )
            },
            None => {
                &&& !(old(state).has_message_topic(topic_name@) && old(state).message_topic(topic_name@).has_subscriber(identifier@))
                &&& *final(state) == *old(state)
            },
        },
{
    match state.find_message_topic(&topic_name) {
        Some(i) => {
            if state.message_topics[i].get_subscriber_offset(identifier.clone()).is_some() {
                let ghost before = *state;
                let ghost pending = before.message_topics@[i as int]@.pending_for(identifier@);
                let fetched = state.message_topics[i].get_data_for_subscriber(identifier.clone());
                proof {
                    lemma_message_topic_replaced(before, *state, i as int);
                }
                match fetched {
                    Some(data) => {
                        proof {
                            assert forall|k: int| 0 <= k < data@.len() implies data@[k] == pending[k] by {
                                assert(cloned(pending[k], data@[k]));
                            }
                            assert(data@ =~= pending);
                        }
                        let cursor = state.message_topics[i].get_subscriber_index(identifier.clone());
                        create_fetch_data_from_topic_event(&mut state.event_queue, topic_name, identifier, cursor);
                        Some(DataMessageTopic { data })
                    },
                    None => None,
                }
            } else {
                None
            }
        },
        None => None,
    }
}

} // verus!
