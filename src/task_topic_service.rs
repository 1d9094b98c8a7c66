//! The broker's operations on task topics. Each mutation changes the topic
//! in memory first and then enqueues the one persistence event that
//! describes it; a request whose precondition fails changes nothing and
//! enqueues nothing. Handing out a task is not persisted.

use crate::event::{
    EventAddPublisherToTaskTopicData, EventAddSubscriberToTaskTopicData, EventCreateTaskTopicData,
    EventDeleteTaskTopicData, EventPublishToTaskTopicData, EventRemovePublisherFromTaskTopicData,
    EventRemoveSubscriberFromTaskTopicData, TopicEvent,
};
use crate::state::{EventQueue, State};
use crate::task_topic::{is_model_of, TaskTopic, TaskTopicView};
use crate::task_topic_model::{
    AddPublisherToTaskTopic, AddSubscriberToTaskTopic, CreateTaskTopic, NewTasks,
    PublishToTaskTopic, RemovePublisherFromTaskTopic, RemoveSubscriberFromTaskTopic,
    TaskTopicModel,
};
use crate::types::TopicType;
use vstd::prelude::*;

verus! {

/// The task topics of `s` with the one named `n` replaced by `t`.
pub open spec fn task_views_with(s: State, n: Seq<char>, t: TaskTopicView<TopicType>) -> Seq<
    TaskTopicView<TopicType>,
> {
    s.task_views().update(s.task_position(n), t)
}

/// A task topic named `n` that holds nothing and has no history.
pub open spec fn empty_task_topic(n: Seq<char>) -> TaskTopicView<TopicType> {
    TaskTopicView {
        name: n,
        data: Seq::empty(),
        subscribers: Seq::empty(),
        publishers: Seq::empty(),
        published: Seq::empty(),
        delivered: Seq::empty(),
    }
}

/// Replacing the task topic at `i` by one of the same name keeps the broker
/// well formed.
proof fn lemma_task_topic_replaced(old_state: State, new_state: State, i: int)
    requires
        old_state.wf(),
        0 <= i < old_state.task_topics@.len(),
        new_state.task_topics@.len() == old_state.task_topics@.len(),
        forall|j: int|
            0 <= j < old_state.task_topics@.len() && j != i ==> new_state.task_topics@[j]
                == old_state.task_topics@[j],
        new_state.task_topics@[i].wf(),
        new_state.task_topics@[i]@.name == old_state.task_topics@[i]@.name,
        new_state.message_topics == old_state.message_topics,
    ensures
        new_state.wf(),
        new_state.task_views() == old_state.task_views().update(i, new_state.task_topics@[i]@),
        new_state.task_topic_names() == old_state.task_topic_names(),
{
    assert(new_state.task_views() =~= old_state.task_views().update(i, new_state.task_topics@[i]@));
    assert(new_state.task_topic_names() =~= old_state.task_topic_names());
    assert forall|j: int| 0 <= j < new_state.task_topics@.len() implies #[trigger] new_state.task_topics@[j].wf() by {
        if j != i {
            assert(old_state.task_topics@[j].wf());
        }
    }
}

/// Every task topic, as readers see it, in creation order.
pub fn get_all_task_topics(state: &State) -> (r: Vec<TaskTopicModel>)
    requires
        state.wf(),
    ensures
        r@.len() == state.task_views().len(),
        forall|i: int| 0 <= i < r@.len() ==> is_model_of(#[trigger] r@[i], state.task_views()[i]),
{
    let mut r: Vec<TaskTopicModel> = Vec::new();
    let mut i: usize = 0;
    while i < state.task_topics.len()
        invariant
            state.wf(),
            i <= state.task_topics@.len(),
            r@.len() == i,
            forall|k: int| 0 <= k < i ==> is_model_of(#[trigger] r@[k], state.task_views()[k]),
        decreases state.task_topics@.len() - i,
    {
        r.push(state.task_topics[i].to_model());
        i = i + 1;
    }
    r
}

/// The task topic named `topic_name`, as readers see it.
pub fn get_task_topic(state: &State, topic_name: String) -> (r: Option<TaskTopicModel>)
    requires
        state.wf(),
    ensures
        match r {
            Some(m) => state.has_task_topic(topic_name@) && is_model_of(m, state.task_topic(topic_name@)),
            None => !state.has_task_topic(topic_name@),
        },
{
    match state.find_task_topic(&topic_name) {
        Some(i) => Some(state.task_topics[i].to_model()),
        None => None,
    }
}

fn create_create_task_topic_event(queue: &mut EventQueue, dts: CreateTaskTopic)
    ensures
        final(queue)@ == old(queue)@.push(TopicEvent::CreateTaskTopic(EventCreateTaskTopicData { data: dts })),
{
    queue.enqueue(TopicEvent::CreateTaskTopic(EventCreateTaskTopicData::new(dts)));
}

/// Creates an empty task topic named `dts.name`; `None` if one exists.
pub fn create_task_topic(state: &mut State, dts: CreateTaskTopic) -> (r: Option<TaskTopicModel>)
    requires
        old(state).wf(),
    ensures
        final(state).wf(),
        match r {
            Some(m) => {
                &&& !old(state).has_task_topic(dts.name@)
                &&& is_model_of(m, empty_task_topic(dts.name@))
                &&& final(state).task_views() == old(state).task_views().push(empty_task_topic(dts.name@))
                &&& final(state).message_topics == old(state).message_topics
                &&& final(state).event_queue@ == old(state).event_queue@.push(
                    TopicEvent::CreateTaskTopic(EventCreateTaskTopicData { data: dts }),
                )
            },
            None => old(state).has_task_topic(dts.name@) && *final(state) == *old(state),
        },
{
    match state.find_task_topic(&dts.name) {
        Some(_) => None,
        None => {
            let ghost before = *state;
            let topic: TaskTopic<TopicType> = TaskTopic::new(dts.name.clone());
            let model = topic.to_model();
            state.task_topics.push(topic);
            proof {
                assert(state.task_views() =~= before.task_views().push(empty_task_topic(dts.name@)));
                assert(state.task_topic_names() =~= before.task_topic_names().push(dts.name@));
                assert forall|j: int| 0 <= j < state.task_topics@.len() implies #[trigger] state.task_topics@[j].wf() by {
                    if j < before.task_topics@.len() {
                        assert(before.task_topics@[j].wf());
                    }
                }
            }
            create_create_task_topic_event(&mut state.event_queue, dts);
            Some(model)
        },
    }
}

fn create_delete_task_topic_event(queue: &mut EventQueue, topic_name: String)
    ensures
        final(queue)@ == old(queue)@.push(
            TopicEvent::DeleteTaskTopic(EventDeleteTaskTopicData { topic_name }),
        ),
{
    queue.enqueue(TopicEvent::DeleteTaskTopic(EventDeleteTaskTopicData::new(topic_name)));
}

/// Deletes the task topic named `topic_name`, with the tasks that wait on it,
/// and returns what readers saw of it; `None` if there is none.
pub fn delete_task_topic(state: &mut State, topic_name: String) -> (r: Option<TaskTopicModel>)
    requires
        old(state).wf(),
    ensures
        final(state).wf(),
        match r {
            Some(m) => {
                &&& old(state).has_task_topic(topic_name@)
                &&& is_model_of(m, old(state).task_topic(topic_name@))
                &&& final(state).task_views() == old(state).task_views().remove(
                    old(state).task_position(topic_name@),
                )
                &&& final(state).message_topics == old(state).message_topics
                &&& final(state).event_queue@ == old(state).event_queue@.push(
                    TopicEvent::DeleteTaskTopic(EventDeleteTaskTopicData { topic_name }),
                )
            },
            None => !old(state).has_task_topic(topic_name@) && *final(state) == *old(state),
        },
{
    match state.find_task_topic(&topic_name) {
        Some(i) => {
            let ghost before = *state;
            let topic = state.task_topics.remove(i);
            let model = topic.to_model();
            proof {
                assert(state.task_views() =~= before.task_views().remove(i as int));
                assert(state.task_topic_names() =~= before.task_topic_names().remove(i as int));
                assert forall|j: int| 0 <= j < state.task_topics@.len() implies #[trigger] state.task_topics@[j].wf() by {
                    if j < i {
                        assert(before.task_topics@[j].wf());
                    } else {
                        assert(before.task_topics@[j + 1].wf());
                    }
                }
            }
            create_delete_task_topic_event(&mut state.event_queue, topic_name);
            Some(model)
        },
        None => None,
    }
}

fn create_add_publisher_to_task_topic_event(
    queue: &mut EventQueue,
    topic_name: String,
    dts: AddPublisherToTaskTopic,
)
    ensures
        final(queue)@ == old(queue)@.push(
            TopicEvent::AddPublisherTaskTopic(EventAddPublisherToTaskTopicData { topic_name, data: dts }),
        ),
{
    queue.enqueue(
        TopicEvent::AddPublisherTaskTopic(EventAddPublisherToTaskTopicData::new(topic_name, dts)),
    );
}

/// Registers `dts.publisher` on the task topic named `topic_name`. Nothing
/// happens if there is no such topic or the publisher is registered already.
pub fn add_publisher_to_task_topic(state: &mut State, topic_name: String, dts: AddPublisherToTaskTopic)
    requires
        old(state).wf(),
    ensures
        final(state).wf(),
        if old(state).has_task_topic(topic_name@) && !old(state).task_topic(topic_name@).is_publisher(dts.publisher@) {
            &&& final(state).task_views() == task_views_with(
                *old(state),
                topic_name@,
                old(state).task_topic(topic_name@).with_publisher(dts.publisher@),
            )
            &&& final(state).message_topics == old(state).message_topics
            &&& final(state).event_queue@ == old(state).event_queue@.push(
                TopicEvent::AddPublisherTaskTopic(EventAddPublisherToTaskTopicData { topic_name, data: dts }),
            )
        } else {
            *final(state) == *old(state)
        },
{
    match state.find_task_topic(&topic_name) {
        Some(i) => {
            if !state.task_topics[i].is_publisher(dts.publisher.clone()) {
                let ghost before = *state;
                state.task_topics[i].add_publisher(dts.publisher.clone());
                proof {
                    lemma_task_topic_replaced(before, *state, i as int);
                }
                create_add_publisher_to_task_topic_event(&mut state.event_queue, topic_name, dts);
            }
        },
        None => {},
    }
}

fn create_remove_publisher_from_task_topic_event(
    queue: &mut EventQueue,
    topic_name: String,
    dts: RemovePublisherFromTaskTopic,
)
    ensures
        final(queue)@ == old(queue)@.push(
            TopicEvent::RemovePublisherTaskTopic(
                EventRemovePublisherFromTaskTopicData { topic_name, data: dts },
            ),
        ),
{
    queue.enqueue(
        TopicEvent::RemovePublisherTaskTopic(
            EventRemovePublisherFromTaskTopicData::new(topic_name, dts),
        ),
    );
}

/// Unregisters `dts.publisher` from the task topic named `topic_name`.
/// Nothing happens if there is no such topic or the publisher is not
/// registered.
pub fn remove_publisher_from_task_topic(
    state: &mut State,
    topic_name: String,
    dts: RemovePublisherFromTaskTopic,
)
    requires
        old(state).wf(),
    ensures
        final(state).wf(),
        if old(state).has_task_topic(topic_name@) && old(state).task_topic(topic_name@).is_publisher(dts.publisher@) {
            &&& final(state).task_views() == task_views_with(
                *old(state),
                topic_name@,
                old(state).task_topic(topic_name@).without_publisher(dts.publisher@),
            )
            &&& final(state).message_topics == old(state).message_topics
            &&& final(state).event_queue@ == old(state).event_queue@.push(
                TopicEvent::RemovePublisherTaskTopic(
                    EventRemovePublisherFromTaskTopicData { topic_name, data: dts },
                ),
            )
        } else {
            *final(state) == *old(state)
        },
{
    match state.find_task_topic(&topic_name) {
        Some(i) => {
            if state.task_topics[i].is_publisher(dts.publisher.clone()) {
                let ghost before = *state;
                state.task_topics[i].remove_publisher(dts.publisher.clone());
                proof {
                    lemma_task_topic_replaced(before, *state, i as int);
                }
                create_remove_publisher_from_task_topic_event(&mut state.event_queue, topic_name, dts);
            }
        },
        None => {},
    }
}

fn create_publish_to_task_topic_event(
    queue: &mut EventQueue,
    topic_name: String,
    dts: PublishToTaskTopic<TopicType>,
)
    ensures
        final(queue)@ == old(queue)@.push(
            TopicEvent::PublishTaskTopic(EventPublishToTaskTopicData { topic_name, data: dts }),
        ),
{
    queue.enqueue(TopicEvent::PublishTaskTopic(EventPublishToTaskTopicData::new(topic_name, dts)));
}

/// Publishes the task `dts.data` on the task topic named `topic_name` on
/// behalf of `publisher_identifier`. Nothing happens if there is no such
/// topic or the publisher is not registered on it.
pub fn publish_to_task_topic(
    state: &mut State,
    topic_name: String,
    publisher_identifier: String,
    dts: PublishToTaskTopic<TopicType>,
)
    requires
        old(state).wf(),
    ensures
        final(state).wf(),
        if old(state).has_task_topic(topic_name@) && old(state).task_topic(topic_name@).is_publisher(publisher_identifier@) {
            &&& final(state).task_views() == task_views_with(
                *old(state),
                topic_name@,
                old(state).task_topic(topic_name@).appended(seq![dts.data]),
            )
            &&& final(state).message_topics == old(state).message_topics
            &&& final(state).event_queue@ == old(state).event_queue@.push(
                TopicEvent::PublishTaskTopic(EventPublishToTaskTopicData { topic_name, data: dts }),
            )
        } else {
            *final(state) == *old(state)
        },
{
    match state.find_task_topic(&topic_name) {
        Some(i) => {
            if state.task_topics[i].is_publisher(publisher_identifier) {
                let ghost before = *state;
                state.task_topics[i].publish(dts.data.clone());
                proof {
                    lemma_task_topic_replaced(before, *state, i as int);
                }
                create_publish_to_task_topic_event(&mut state.event_queue, topic_name, dts);
            }
        },
        None => {},
    }
}

fn create_subscribe_to_task_topic_event(
    queue: &mut EventQueue,
    topic_name: String,
    dts: AddSubscriberToTaskTopic,
)
    ensures
        final(queue)@ == old(queue)@.push(
            TopicEvent::AddSubscriberTaskTopic(EventAddSubscriberToTaskTopicData { topic_name, data: dts }),
        ),
{
    queue.enqueue(
        TopicEvent::AddSubscriberTaskTopic(EventAddSubscriberToTaskTopicData::new(topic_name, dts)),
    );
}

/// Subscribes `dts.subscriber` to the task topic named `topic_name`. Nothing
/// happens if there is no such topic or the subscriber is registered already.
pub fn add_subscriber_to_task_topic(state: &mut State, topic_name: String, dts: AddSubscriberToTaskTopic)
    requires
        old(state).wf(),
    ensures
        final(state).wf(),
        if old(state).has_task_topic(topic_name@) && !old(state).task_topic(topic_name@).is_subscriber(dts.subscriber@) {
            &&& final(state).task_views() == task_views_with(
                *old(state),
                topic_name@,
                old(state).task_topic(topic_name@).with_subscriber(dts.subscriber@),
            )
            &&& final(state).message_topics == old(state).message_topics
            &&& final(state).event_queue@ == old(state).event_queue@.push(
                TopicEvent::AddSubscriberTaskTopic(EventAddSubscriberToTaskTopicData { topic_name, data: dts }),
            )
        } else {
            *final(state) == *old(state)
        },
{
    match state.find_task_topic(&topic_name) {
        Some(i) => {
            if !state.task_topics[i].is_subscriber(dts.subscriber.clone()) {
                let ghost before = *state;
                state.task_topics[i].add_subscriber(dts.subscriber.clone());
                proof {
                    lemma_task_topic_replaced(before, *state, i as int);
                }
                create_subscribe_to_task_topic_event(&mut state.event_queue, topic_name, dts);
            }
        },
        None => {},
    }
}

fn create_unsubscribe_from_task_topic_event(
    queue: &mut EventQueue,
    topic_name: String,
    dts: RemoveSubscriberFromTaskTopic,
)
    ensures
        final(queue)@ == old(queue)@.push(
            TopicEvent::RemoveSubscriberTaskTopic(
                EventRemoveSubscriberFromTaskTopicData { topic_name, data: dts },
            ),
        ),
{
    queue.enqueue(
        TopicEvent::RemoveSubscriberTaskTopic(
            EventRemoveSubscriberFromTaskTopicData::new(topic_name, dts),
        ),
    );
}

/// Unsubscribes `dts.subscriber` from the task topic named `topic_name`.
/// Nothing happens if there is no such topic or the subscriber is not
/// registered.
pub fn remove_subscriber_from_task_topic(
    state: &mut State,
    topic_name: String,
    dts: RemoveSubscriberFromTaskTopic,
)
    requires
        old(state).wf(),
    ensures
        final(state).wf(),
        if old(state).has_task_topic(topic_name@) && old(state).task_topic(topic_name@).is_subscriber(dts.subscriber@) {
            &&& final(state).task_views() == task_views_with(
                *old(state),
                topic_name@,
                old(state).task_topic(topic_name@).without_subscriber(dts.subscriber@),
            )
            &&& final(state).message_topics == old(state).message_topics
            &&& final(state).event_queue@ == old(state).event_queue@.push(
                TopicEvent::RemoveSubscriberTaskTopic(
                    EventRemoveSubscriberFromTaskTopicData { topic_name, data: dts },
                ),
            )
        } else {
            *final(state) == *old(state)
        },
{
    match state.find_task_topic(&topic_name) {
        Some(i) => {
            if state.task_topics[i].is_subscriber(dts.subscriber.clone()) {
                let ghost before = *state;
                state.task_topics[i].remove_subscriber(dts.subscriber.clone());
                proof {
                    lemma_task_topic_replaced(before, *state, i as int);
                }
                create_unsubscribe_from_task_topic_event(&mut state.event_queue, topic_name, dts);
            }
        },
        None => {},
    }
}

/// Whether a task waits for `subscriber` on the task topic named
/// `topic_name`: false if there is no such topic or it does not subscribe.
pub fn is_there_a_task_for_subscriber(state: &State, topic_name: String, subscriber: String) -> (r:
    NewTasks)
    requires
        state.wf(),
    ensures
        r.new_tasks == (state.has_task_topic(topic_name@) && state.task_topic(topic_name@).is_subscriber(subscriber@)
            && state.task_topic(topic_name@).data.len() > 0),
{
    match state.find_task_topic(&topic_name) {
        Some(i) => {
            if state.task_topics[i].is_subscriber(subscriber) {
                NewTasks::new(state.task_topics[i].has_open_tasks())
            } else {
                NewTasks::new(false)
            }
        },
        None => NewTasks::new(false),
    }
}

/// Hands `subscriber` the oldest task of the task topic named `topic_name`
/// and removes it, so that no other subscriber gets it. `None` if there is no
/// such topic, it does not subscribe, or no task waits.
pub fn get_new_task_for_subscriber(state: &mut State, topic_name: String, subscriber: String) -> (r:
    Option<TopicType>)
    requires
        old(state).wf(),
    ensures
        final(state).wf(),
        if old(state).has_task_topic(topic_name@) && old(state).task_topic(topic_name@).is_subscriber(subscriber@) {
            let t = old(state).task_topic(topic_name@);
            &&& r == if t.data.len() == 0 { None } else { Some(t.data[0]) }
            &&& final(state).task_views() == task_views_with(*old(state), topic_name@, t.after_fetch())
            &&& final(state).message_topics == old(state).message_topics
            &&& final(state).event_queue == old(state).event_queue
        } else {
            &&& r is None
            &&& *final(state) == *old(state)
        },
{
    match state.find_task_topic(&topic_name) {
        Some(i) => {
            if state.task_topics[i].is_subscriber(subscriber.clone()) {
                let ghost before = *state;
                let r = state.task_topics[i].fetch_data(subscriber);
                proof {
                    lemma_task_topic_replaced(before, *state, i as int);
                }
                r
            } else {
                None
            }
        },
        None => None,
    }
}

} // verus!
