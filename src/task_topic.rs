//! Task topics: a first-in first-out queue of tasks, each handed to exactly
//! one of the subscribers, whichever fetches it first.

use crate::names::{contains_name, copy_names, insert_name, names_of, remove_name};
use crate::task_topic_model::TaskTopicModel;
use std::collections::VecDeque;
use vstd::prelude::*;

verus! {

/// What a task topic holds, as mathematical values, with its history.
pub struct TaskTopicView<T> {
    pub name: Seq<char>,
    /// The tasks waiting, oldest first.
    pub data: Seq<T>,
    pub subscribers: Seq<Seq<char>>,
    pub publishers: Seq<Seq<char>>,
    /// Every task published so far, in order.
    pub published: Seq<T>,
    /// Every task handed to a subscriber so far, in order.
    pub delivered: Seq<T>,
}

impl<T> TaskTopicView<T> {
    /// The topic's invariant: names are unique, and what was published is
    /// what was delivered followed by what waits.
    pub open spec fn wf(self) -> bool {
        &&& self.subscribers.no_duplicates()
        &&& self.publishers.no_duplicates()
        &&& self.published == self.delivered + self.data
    }

    pub open spec fn is_subscriber(self, n: Seq<char>) -> bool {
        self.subscribers.contains(n)
    }

    pub open spec fn is_publisher(self, n: Seq<char>) -> bool {
        self.publishers.contains(n)
    }

    pub open spec fn with_publisher(self, n: Seq<char>) -> Self {
        if self.is_publisher(n) {
            self
        } else {
            TaskTopicView { publishers: self.publishers.push(n), ..self }
        }
    }

    pub open spec fn without_publisher(self, n: Seq<char>) -> Self {
        TaskTopicView { publishers: self.publishers.remove_value(n), ..self }
    }

    pub open spec fn with_subscriber(self, n: Seq<char>) -> Self {
        if self.is_subscriber(n) {
            self
        } else {
            TaskTopicView { subscribers: self.subscribers.push(n), ..self }
        }
    }

    pub open spec fn without_subscriber(self, n: Seq<char>) -> Self {
        TaskTopicView { subscribers: self.subscribers.remove_value(n), ..self }
    }

    /// The state after publishing `items`.
    pub open spec fn appended(self, items: Seq<T>) -> Self {
        TaskTopicView { data: self.data + items, published: self.published + items, ..self }
    }

    /// The state after the oldest task, if any, was handed out.
    pub open spec fn after_fetch(self) -> Self {
        if self.data.len() == 0 {
            self
        } else {
            TaskTopicView {
                data: self.data.drop_first(),
                delivered: self.delivered.push(self.data[0]),
                ..self
            }
        }
    }
}

/// Each published task is handed out at most once: the `i`-th task handed
/// out is the `i`-th task published, and as many were handed out as were
/// published less those that still wait.
pub proof fn lemma_single_delivery<T>(t: TaskTopicView<T>)
    requires
        t.wf(),
    ensures
        t.delivered.len() == t.published.len() - t.data.len(),
        forall|i: int| 0 <= i < t.delivered.len() ==> #[trigger] t.delivered[i] == t.published[i],
{
}

/// Whether `m` is what readers see of `t`.
pub open spec fn is_model_of<T>(m: TaskTopicModel, t: TaskTopicView<T>) -> bool {
    &&& m.name@ == t.name
    &&& names_of(m.subscriber@) == t.subscribers
}

/// A single-delivery topic.
pub struct TaskTopic<T> {
    pub name: String,
    pub data: VecDeque<T>,
    pub subscriber: Vec<String>,
    pub publisher: Vec<String>,
    pub published: Ghost<Seq<T>>,
    pub delivered: Ghost<Seq<T>>,
}

impl<T> View for TaskTopic<T> {
    type V = TaskTopicView<T>;

    open spec fn view(&self) -> TaskTopicView<T> {
        TaskTopicView {
            name: self.name@,
            data: self.data@,
            subscribers: names_of(self.subscriber@),
            publishers: names_of(self.publisher@),
            published: self.published@,
            delivered: self.delivered@,
        }
    }
}

impl<T> TaskTopic<T> {
    pub open spec fn wf(&self) -> bool {
        self@.wf()
    }

    /// An empty topic named `name`.
    pub fn new(name: String) -> (r: Self)
        ensures
            r.wf(),
            r@ == (TaskTopicView::<T> {
                name: name@,
                data: Seq::empty(),
                subscribers: Seq::empty(),
                publishers: Seq::empty(),
                published: Seq::empty(),
                delivered: Seq::empty(),
            }),
    {
        let r = Self {
            name,
            data: VecDeque::new(),
            subscriber: Vec::new(),
            publisher: Vec::new(),
            published: Ghost(Seq::empty()),
            delivered: Ghost(Seq::empty()),
        };
        proof {
            assert(names_of(r.subscriber@) =~= Seq::empty());
            assert(names_of(r.publisher@) =~= Seq::empty());
            assert(r@.published =~= r@.delivered + r@.data);
        }
        r
    }

    /// Appends a task at the tail.
    pub fn publish(&mut self, data_to_add: T)
        requires
            old(self).wf(),
        ensures
            final(self).wf(),
            final(self)@ == old(self)@.appended(seq![data_to_add]),
    {
        let ghost before = self@;
        self.data.push_back(data_to_add);
        self.published = Ghost(self.published@.push(data_to_add));
        proof {
            assert(self@.data =~= before.data + seq![data_to_add]);
            assert(self@.published =~= before.published + seq![data_to_add]);
            assert(self@.published =~= self@.delivered + self@.data);
        }
    }

    /// Appends all of `data_to_add`, in order, and leaves it empty.
    pub fn publish_multiple(&mut self, data_to_add: &mut Vec<T>)
        requires
            old(self).wf(),
        ensures
            final(self).wf(),
            final(self)@ == old(self)@.appended(old(data_to_add)@),
            final(data_to_add)@.len() == 0,
    {
        let ghost before = self@;
        let items = data_to_add.split_off(0);
        let ghost all = items@;
        assert(all =~= old(data_to_add)@);
        for item in it: items.into_iter()
            invariant
                self.wf(),
                it.seq() == all,
                self@ == before.appended(all.take(it.index() as int)),
        {
            let ghost mid = self@;
            self.publish(item);
            proof {
                assert(all.take(it.index() + 1) =~= all.take(it.index() as int).push(item));
                assert(self@.data =~= before.data + all.take(it.index() + 1));
                assert(self@.published =~= before.published + all.take(it.index() + 1));
            }
        }
        proof {
            assert(all.take(all.len() as int) =~= all);
        }
    }

    /// Registers `identifier` as a publisher; a known publisher is left as it is.
    pub fn add_publisher(&mut self, identifier: String)
        requires
            old(self).wf(),
        ensures
            final(self).wf(),
            final(self)@ == old(self)@.with_publisher(identifier@),
    {
        insert_name(&mut self.publisher, identifier);
    }

    /// Unregisters `identifier` as a publisher; an unknown one changes nothing.
    pub fn remove_publisher(&mut self, identifier: String)
        requires
            old(self).wf(),
        ensures
            final(self).wf(),
            final(self)@ == old(self)@.without_publisher(identifier@),
    {
        remove_name(&mut self.publisher, &identifier);
    }

    /// Whether `identifier` may publish on this topic.
    pub fn is_publisher(&self, identifier: String) -> (r: bool)
        ensures
            r == self@.is_publisher(identifier@),
    {
        contains_name(&self.publisher, &identifier)
    }

    /// Registers subscriber `identifier`; a known subscriber is left as it is.
    pub fn add_subscriber(&mut self, identifier: String)
        requires
            old(self).wf(),
        ensures
            final(self).wf(),
            final(self)@ == old(self)@.with_subscriber(identifier@),
    {
        insert_name(&mut self.subscriber, identifier);
    }

    /// Unregisters subscriber `identifier`; an unknown one changes nothing.
    pub fn remove_subscriber(&mut self, identifier: String)
        requires
            old(self).wf(),
        ensures
            final(self).wf(),
            final(self)@ == old(self)@.without_subscriber(identifier@),
    {
        remove_name(&mut self.subscriber, &identifier);
    }

    /// Whether a task waits.
    pub fn has_open_tasks(&self) -> (r: bool)
        ensures
            r == (self@.data.len() > 0),
    {
        self.data.len() > 0
    }

    /// Hands the oldest task to subscriber `identifier`, which must
    /// subscribe, and removes it; `None` when no task waits.
    pub fn fetch_data(&mut self, identifier: String) -> (r: Option<T>)
        requires
            old(self).wf(),
            old(self)@.is_subscriber(identifier@),
        ensures
            final(self).wf(),
            final(self)@ == old(self)@.after_fetch(),
            r == if old(self)@.data.len() == 0 {
                None
            } else {
                Some(old(self)@.data[0])
            },
    {
        let ghost before = self@;
        let r = self.data.pop_front();
        match &r {
            Some(x) => {
                self.delivered = Ghost(self.delivered@.push(*x));
                proof {
                    assert(self@.data =~= before.data.drop_first());
                    assert(self@.published =~= self@.delivered + self@.data);
                }
            },
            None => {},
        }
        r
    }

    /// Whether `identifier` subscribes to this topic.
    pub fn is_subscriber(&self, identifier: String) -> (r: bool)
        ensures
            r == self@.is_subscriber(identifier@),
    {
        contains_name(&self.subscriber, &identifier)
    }

    /// The topic as readers see it.
    pub fn to_model(&self) -> (r: TaskTopicModel)
        ensures
            is_model_of(r, self@),
    {
        TaskTopicModel { name: self.name.clone(), subscriber: copy_names(&self.subscriber) }
    }
}

} // verus!
