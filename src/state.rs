//! The broker's registry: its topics and the queue of persistence events.

use crate::event::TopicEvent;
use crate::message_topic::{MessageTopic, MessageTopicView};
use crate::names::lemma_index_of_unique;
use crate::queue::Queue;
use crate::task_topic::{TaskTopic, TaskTopicView};
use crate::types::TopicType;
use vstd::prelude::*;

verus! {

/// The queue that carries persistence events to the store's workers.
pub type EventQueue = Queue<TopicEvent>;

/// All topics of the broker, each kind in creation order, and the events
/// that wait for the store.
pub struct State {
    pub message_topics: Vec<MessageTopic<TopicType>>,
    pub task_topics: Vec<TaskTopic<TopicType>>,
    pub event_queue: EventQueue,
}

impl State {
    pub open spec fn message_views(&self) -> Seq<MessageTopicView<TopicType>> {
        self.message_topics@.map_values(|t: MessageTopic<TopicType>| t@)
    }

    pub open spec fn task_views(&self) -> Seq<TaskTopicView<TopicType>> {
        self.task_topics@.map_values(|t: TaskTopic<TopicType>| t@)
    }

    pub open spec fn message_topic_names(&self) -> Seq<Seq<char>> {
        self.message_views().map_values(|t: MessageTopicView<TopicType>| t.name)
    }

    pub open spec fn task_topic_names(&self) -> Seq<Seq<char>> {
        self.task_views().map_values(|t: TaskTopicView<TopicType>| t.name)
    }

    /// Every topic is well formed, and no two topics of a kind share a name.
    pub open spec fn wf(&self) -> bool {
        &&& forall|i: int| 0 <= i < self.message_topics@.len() ==> #[trigger] self.message_topics@[i].wf()
        &&& forall|i: int| 0 <= i < self.task_topics@.len() ==> #[trigger] self.task_topics@[i].wf()
        &&& self.message_topic_names().no_duplicates()
        &&& self.task_topic_names().no_duplicates()
    }

    pub open spec fn has_message_topic(&self, n: Seq<char>) -> bool {
        self.message_topic_names().contains(n)
    }

    pub open spec fn has_task_topic(&self, n: Seq<char>) -> bool {
        self.task_topic_names().contains(n)
    }

    /// Where the message topic named `n` stands.
    pub open spec fn message_position(&self, n: Seq<char>) -> int {
        self.message_topic_names().index_of(n)
    }

    /// Where the task topic named `n` stands.
    pub open spec fn task_position(&self, n: Seq<char>) -> int {
        self.task_topic_names().index_of(n)
    }

    /// The message topic named `n`.
    pub open spec fn message_topic(&self, n: Seq<char>) -> MessageTopicView<TopicType> {
        self.message_views()[self.message_position(n)]
    }

    /// The task topic named `n`.
    pub open spec fn task_topic(&self, n: Seq<char>) -> TaskTopicView<TopicType> {
        self.task_views()[self.task_position(n)]
    }

    /// A broker without topics or events.
    pub fn new() -> (r: Self)
        ensures
            r.wf(),
            r.message_topics@.len() == 0,
            r.task_topics@.len() == 0,
            r.event_queue@.len() == 0,
    {
        let r = Self { message_topics: Vec::new(), task_topics: Vec::new(), event_queue: Queue::new() };
        proof {
            assert(r.message_topic_names() =~= Seq::empty());
            assert(r.task_topic_names() =~= Seq::empty());
        }
        r
    }

    /// Position of the message topic named `name`.
    pub fn find_message_topic(&self, name: &String) -> (r: Option<usize>)
        requires
            self.wf(),
        ensures
            match r {
                Some(i) => {
                    &&& self.has_message_topic(name@)
                    &&& i == self.message_position(name@)
                    &&& i < self.message_topics@.len()
                },
                None => !self.has_message_topic(name@),
            },
    {
        let ghost names = self.message_topic_names();
        let mut i: usize = 0;
        while i < self.message_topics.len()
            invariant
                self.wf(),
                names == self.message_topic_names(),
                i <= self.message_topics@.len(),
                forall|j: int| 0 <= j < i ==> names[j] != name@,
            decreases self.message_topics@.len() - i,
        {
            if self.message_topics[i].name == *name {
                proof {
                    assert(names[i as int] == name@);
                    lemma_index_of_unique(names, i as int);
                }
                return Some(i);
            }
            i = i + 1;
        }
        None
    }

    /// Position of the task topic named `name`.
    pub fn find_task_topic(&self, name: &String) -> (r: Option<usize>)
        requires
            self.wf(),
        ensures
            match r {
                Some(i) => {
                    &&& self.has_task_topic(name@)
                    &&& i == self.task_position(name@)
                    &&& i < self.task_topics@.len()
                },
                None => !self.has_task_topic(name@),
            },
    {
        let ghost names = self.task_topic_names();
        let mut i: usize = 0;
        while i < self.task_topics.len()
            invariant
                self.wf(),
                names == self.task_topic_names(),
                i <= self.task_topics@.len(),
                forall|j: int| 0 <= j < i ==> names[j] != name@,
            decreases self.task_topics@.len() - i,
        {
            if self.task_topics[i].name == *name {
                proof {
                    assert(names[i as int] == name@);
                    lemma_index_of_unique(names, i as int);
                }
                return Some(i);
            }
            i = i + 1;
        }
        None
    }
}

impl Default for State {
    fn default() -> (r: Self)
        ensures
            r.wf(),
            r.message_topics@.len() == 0,
            r.task_topics@.len() == 0,
            r.event_queue@.len() == 0,
    {
        Self::new()
    }
}

} // verus!
