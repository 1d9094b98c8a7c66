//! Message topics: an append-only log of payloads read by every subscriber
//! through a cursor of its own.
//!
//! The index and every cursor live in one coordinate space. A new subscriber
//! starts at the current index, so it never sees earlier payloads. When the
//! index would overflow, the topic compacts itself: it drops the payloads that
//! every subscriber has read and lowers the index and every cursor by as
//! much, which leaves each subscriber's pending payloads as they were.

use crate::message_topic_model::MessageTopicModel;
use crate::names::{
    contains_name, copy_names, insert_name, lemma_index_of_unique, names_of, remove_name,
};
use vstd::prelude::*;

verus! {

/// What a message topic holds, as mathematical values.
pub struct MessageTopicView<T> {
    pub name: Seq<char>,
    /// Number of payloads published, less what compactions removed.
    pub index: nat,
    pub data: Seq<T>,
    /// Each subscriber's name with its cursor, in the order they joined.
    pub subscribers: Seq<(Seq<char>, nat)>,
    pub publishers: Seq<Seq<char>>,
}

/// The smallest cursor among `subscribers`, or `bound` when there is none.
pub open spec fn lowest_cursor(subscribers: Seq<(Seq<char>, nat)>, bound: nat) -> nat
    decreases subscribers.len(),
{
    if subscribers.len() == 0 {
        bound
    } else {
        let rest = lowest_cursor(subscribers.drop_last(), bound);
        if subscribers.last().1 < rest {
            subscribers.last().1
        } else {
            rest
        }
    }
}

/// The lowest cursor is below the bound and below every cursor, and it is the
/// bound itself when there is no subscriber.
pub proof fn lemma_lowest_cursor(subscribers: Seq<(Seq<char>, nat)>, bound: nat)
    ensures
        lowest_cursor(subscribers, bound) <= bound,
        forall|i: int|
            0 <= i < subscribers.len() ==> lowest_cursor(subscribers, bound)
                <= #[trigger] subscribers[i].1,
        subscribers.len() == 0 ==> lowest_cursor(subscribers, bound) == bound,
    decreases subscribers.len(),
{
    if subscribers.len() > 0 {
        let rest = subscribers.drop_last();
        lemma_lowest_cursor(rest, bound);
        assert forall|i: int| 0 <= i < subscribers.len() implies lowest_cursor(subscribers, bound)
            <= #[trigger] subscribers[i].1 by {
            if i < subscribers.len() - 1 {
                assert(rest[i] == subscribers[i]);
            }
        }
    }
}

/// In a well-formed topic every subscriber's cursor lies between zero and
/// the index.
pub proof fn lemma_cursor_within_index<T>(t: MessageTopicView<T>, s: Seq<char>)
    requires
        t.wf(),
        t.has_subscriber(s),
    ensures
        0 <= t.cursor(s) <= t.index,
{
    let p = t.position(s);
    assert(0 <= p < t.subscribers.len());
}

/// How a publish went.
#[derive(Debug, Clone, Copy, PartialEq, Eq, Structural)]
pub enum PublishOutcome {
    /// The payloads were appended.
    Appended,
    /// The topic was first compacted by the given amount, then the payloads
    /// were appended.
    AppendedAfterReset(usize),
    /// Even a compaction could not make room: nothing changed.
    Rejected,
}

impl<T> MessageTopicView<T> {
    /// The subscribers' names, in the order they joined.
    pub open spec fn subscriber_names(self) -> Seq<Seq<char>> {
        self.subscribers.map_values(|e: (Seq<char>, nat)| e.0)
    }

    pub open spec fn has_subscriber(self, n: Seq<char>) -> bool {
        self.subscriber_names().contains(n)
    }

    /// Where subscriber `n` stands in `subscribers`.
    pub open spec fn position(self, n: Seq<char>) -> int {
        self.subscriber_names().index_of(n)
    }

    /// The cursor of subscriber `n`.
    pub open spec fn cursor(self, n: Seq<char>) -> nat {
        self.subscribers[self.position(n)].1
    }

    pub open spec fn is_publisher(self, n: Seq<char>) -> bool {
        self.publishers.contains(n)
    }

    /// The topic's invariant: the index counts the payloads held, names are
    /// unique, and no cursor is past the index.
    pub open spec fn wf(self) -> bool {
        &&& self.index == self.data.len()
        &&& self.publishers.no_duplicates()
        &&& self.subscriber_names().no_duplicates()
        &&& forall|i: int| 0 <= i < self.subscribers.len() ==> #[trigger] self.subscribers[i].1 <= self.index
    }

    /// What a compaction removes: everything that every subscriber has read,
    /// and so everything when nobody subscribes.
    pub open spec fn compaction_amount(self) -> nat {
        lowest_cursor(self.subscribers, self.index)
    }

    pub open spec fn with_publisher(self, n: Seq<char>) -> Self {
        if self.is_publisher(n) {
            self
        } else {
            MessageTopicView { publishers: self.publishers.push(n), ..self }
        }
    }

    pub open spec fn without_publisher(self, n: Seq<char>) -> Self {
        MessageTopicView { publishers: self.publishers.remove_value(n), ..self }
    }

    /// A new subscriber starts at the current index.
    pub open spec fn with_subscriber(self, n: Seq<char>) -> Self {
        if self.has_subscriber(n) {
            self
        } else {
            MessageTopicView { subscribers: self.subscribers.push((n, self.index)), ..self }
        }
    }

    pub open spec fn without_subscriber(self, n: Seq<char>) -> Self {
        if self.has_subscriber(n) {
            MessageTopicView { subscribers: self.subscribers.remove(self.position(n)), ..self }
        } else {
            self
        }
    }

    pub open spec fn appended(self, items: Seq<T>) -> Self {
        MessageTopicView { data: self.data + items, index: self.index + items.len(), ..self }
    }

    /// Drops the first `m` payloads and lowers the index and every cursor by `m`.
    pub open spec fn compacted(self, m: nat) -> Self {
        MessageTopicView {
            index: (self.index - m) as nat,
            data: self.data.skip(m as int),
            subscribers: self.subscribers.map_values(|e: (Seq<char>, nat)| (e.0, (e.1 - m) as nat)),
            ..self
        }
    }

    /// How publishing `n` payloads goes: they are appended if the index has
    /// room for them, else after a compaction if that makes room, else not at
    /// all.
    pub open spec fn publish_outcome(self, n: nat) -> PublishOutcome {
        if self.index + n <= usize::MAX {
            PublishOutcome::Appended
        } else if self.index - self.compaction_amount() + n <= usize::MAX {
            PublishOutcome::AppendedAfterReset(self.compaction_amount() as usize)
        } else {
            PublishOutcome::Rejected
        }
    }

    /// The state after publishing `items`.
    pub open spec fn published(self, items: Seq<T>) -> Self {
        match self.publish_outcome(items.len()) {
            PublishOutcome::Appended => self.appended(items),
            PublishOutcome::AppendedAfterReset(m) => self.compacted(m as nat).appended(items),
            PublishOutcome::Rejected => self,
        }
    }

    /// The payloads that subscriber `n` has not fetched yet.
    pub open spec fn pending_for(self, n: Seq<char>) -> Seq<T> {
        self.data.subrange(self.cursor(n) as int, self.index as int)
    }

    /// After a fetch by `n`, its cursor is the index.
    pub open spec fn fetched_by(self, n: Seq<char>) -> Self {
        MessageTopicView { subscribers: self.subscribers.update(self.position(n), (n, self.index)), ..self }
    }
}

/// Whether `m` is what readers see of `t`.
pub open spec fn is_model_of<T>(m: MessageTopicModel, t: MessageTopicView<T>) -> bool {
    &&& m.name@ == t.name
    &&& m.index == t.index
    &&& names_of(m.subscriber@) == t.subscriber_names()
}

/// A fan-out topic.
#[derive(Debug)]
pub struct MessageTopic<T> {
    pub name: String,
    pub index: usize,
    pub data: Vec<T>,
    pub subscriber: Vec<(String, usize)>,
    pub publisher: Vec<String>,
}

/// The view of a subscriber list.
pub open spec fn subscribers_of(v: Seq<(String, usize)>) -> Seq<(Seq<char>, nat)> {
    v.map_values(|e: (String, usize)| (e.0@, e.1 as nat))
}

impl<T> View for MessageTopic<T> {
    type V = MessageTopicView<T>;

    open spec fn view(&self) -> MessageTopicView<T> {
        MessageTopicView {
            name: self.name@,
            index: self.index as nat,
            data: self.data@,
            subscribers: subscribers_of(self.subscriber@),
            publishers: names_of(self.publisher@),
        }
    }
}

impl<T: Clone> MessageTopic<T> {
    pub open spec fn wf(&self) -> bool {
        self@.wf()
    }

    /// An empty topic named `name`.
    pub fn new(name: String) -> (r: Self)
        ensures
            r.wf(),
            r@ == (MessageTopicView::<T> {
                name: name@,
                index: 0,
                data: Seq::empty(),
                subscribers: Seq::empty(),
                publishers: Seq::empty(),
            }),
    {
        let r = Self {
            name,
            index: 0,
            data: Vec::new(),
            subscriber: Vec::new(),
            publisher: Vec::new(),
        };
        proof {
            assert(subscribers_of(r.subscriber@) =~= Seq::empty());
            assert(names_of(r.publisher@) =~= Seq::empty());
            assert(r@.subscriber_names() =~= Seq::empty());
        }
        r
    }

    /// The current index.
    pub fn get_index(&self) -> (r: usize)
        ensures
            r == self@.index,
    {
        self.index
    }

    /// Whether `identifier` may publish on this topic.
    pub fn is_publisher(&self, identifier: String) -> (r: bool)
        ensures
            r == self@.is_publisher(identifier@),
    {
        contains_name(&self.publisher, &identifier)
    }

    /// Registers `identifier` as a publisher; a known publisher is left as it is.
    pub fn add_publisher(&mut self, identifier: String)
        requires
            old(self).wf(),
        ensures
            final(self).wf(),
            final(self)@ == old(self)@.with_publisher(identifier@),
    {
        insert_name(&mut self.publisher, identifier);
    }

    /// Unregisters `identifier` as a publisher; an unknown one changes nothing.
    pub fn remove_publisher(&mut self, identifier: String)
        requires
            old(self).wf(),
        ensures
            final(self).wf(),
            final(self)@ == old(self)@.without_publisher(identifier@),
    {
        remove_name(&mut self.publisher, &identifier);
    }

    /// Position of subscriber `n` in the subscriber list.
    fn position_of_subscriber(&self, n: &String) -> (r: Option<usize>)
        requires
            self.wf(),
        ensures
            match r {
                Some(i) => {
                    &&& self@.has_subscriber(n@)
                    &&& i == self@.position(n@)
                    &&& i < self.subscriber@.len()
                    &&& self.subscriber@[i as int].0@ == n@
                },
                None => !self@.has_subscriber(n@),
            },
    {
        let ghost names = self@.subscriber_names();
        let mut i: usize = 0;
        while i < self.subscriber.len()
            invariant
                self.wf(),
                i <= self.subscriber@.len(),
                names == self@.subscriber_names(),
                forall|j: int| 0 <= j < i ==> names[j] != n@,
            decreases self.subscriber@.len() - i,
        {
            if self.subscriber[i].0 == *n {
                proof {
                    assert(names[i as int] == n@);
                    lemma_index_of_unique(names, i as int);
                }
                return Some(i);
            }
            i = i + 1;
        }
        None
    }

    /// Registers subscriber `identifier` at the current index, so it receives
    /// only what is published from now on; a known subscriber is left as it is.
    pub fn add_subscriber(&mut self, identifier: String)
        requires
            old(self).wf(),
        ensures
            final(self).wf(),
            final(self)@ == old(self)@.with_subscriber(identifier@),
            !old(self)@.has_subscriber(identifier@) ==> final(self)@.cursor(identifier@) == final(self)@.index,
    {
        if self.position_of_subscriber(&identifier).is_none() {
            let ghost before = self@;
            let ghost n = identifier@;
            self.subscriber.push((identifier, self.index));
            proof {
                assert(self@.subscribers =~= before.subscribers.push((n, before.index)));
                assert(self@.subscriber_names() =~= before.subscriber_names().push(n));
                lemma_index_of_unique(self@.subscriber_names(), before.subscribers.len() as int);
            }
        }
    }

    /// Unregisters subscriber `identifier`; an unknown one changes nothing.
    pub fn remove_subscriber(&mut self, identifier: String)
        requires
            old(self).wf(),
        ensures
            final(self).wf(),
            final(self)@ == old(self)@.without_subscriber(identifier@),
    {
        match self.position_of_subscriber(&identifier) {
            Some(i) => {
                let ghost before = self@;
                self.subscriber.remove(i);
                proof {
                    assert(self@.subscribers =~= before.subscribers.remove(i as int));
                    assert(self@.subscriber_names() =~= before.subscriber_names().remove(i as int));
                }
            },
            None => {},
        }
    }

    /// The cursor of subscriber `identifier`, or `None` if it does not subscribe.
    pub fn get_subscriber_offset(&self, identifier: String) -> (r: Option<usize>)
        requires
            self.wf(),
        ensures
            r == if self@.has_subscriber(identifier@) {
                Some(self@.cursor(identifier@) as usize)
            } else {
                None::<usize>
            },
    {
        match self.position_of_subscriber(&identifier) {
            Some(i) => Some(self.subscriber[i].1),
            None => None,
        }
    }

    /// The cursor of subscriber `identifier`, which must subscribe.
    pub fn get_subscriber_index(&self, identifier: String) -> (r: usize)
        requires
            self.wf(),
            self@.has_subscriber(identifier@),
        ensures
            r == self@.cursor(identifier@),
    {
        match self.position_of_subscriber(&identifier) {
            Some(i) => self.subscriber[i].1,
            None => 0,
        }
    }

    /// Whether subscriber `identifier`, which must subscribe, has payloads it
    /// has not fetched.
    pub fn new_data_to_fetch_for_subscriber(&self, identifier: String) -> (r: bool)
        requires
            self.wf(),
            self@.has_subscriber(identifier@),
        ensures
            r == (self@.cursor(identifier@) < self@.index),
    {
        self.get_subscriber_index(identifier) < self.index
    }

    /// The subscribers' names, in the order they joined.
    pub fn get_subscriber_names(&self) -> (r: Vec<String>)
        ensures
            names_of(r@) == self@.subscriber_names(),
    {
        let mut r: Vec<String> = Vec::new();
        let mut i: usize = 0;
        while i < self.subscriber.len()
            invariant
                i <= self.subscriber@.len(),
                r@.len() == i,
                names_of(r@) == self@.subscriber_names().subrange(0, i as int),
            decreases self.subscriber@.len() - i,
        {
            let ghost before = r@;
            r.push(self.subscriber[i].0.clone());
            proof {
                assert(r@ == before.push(self.subscriber@[i as int].0));
                assert(names_of(r@)[i as int] == self@.subscriber_names()[i as int]);
                assert(names_of(r@) =~= self@.subscriber_names().subrange(0, i + 1));
            }
            i = i + 1;
        }
        proof {
            assert(self@.subscriber_names().subrange(0, i as int) =~= self@.subscriber_names());
        }
        r
    }

    /// What a compaction would remove now.
    fn compaction_amount(&self) -> (m: usize)
        requires
            self.wf(),
        ensures
            m == self@.compaction_amount(),
    {
        let ghost subs = self@.subscribers;
        let mut m: usize = self.index;
        let mut i: usize = 0;
        while i < self.subscriber.len()
            invariant
                i <= self.subscriber@.len(),
                subs == self@.subscribers,
                m as nat == lowest_cursor(subs.take(i as int), self.index as nat),
            decreases self.subscriber@.len() - i,
        {
            proof {
                assert(subs.take(i + 1).drop_last() =~= subs.take(i as int));
                assert(subs.take(i + 1).last() == subs[i as int]);
            }
            let c = self.subscriber[i].1;
            if c < m {
                m = c;
            }
            i = i + 1;
        }
        proof {
            assert(subs.take(i as int) =~= subs);
        }
        m
    }

    /// Compacts the topic by `subtrahend`: drops that many payloads from the
    /// front and lowers the index and every cursor by as much. What each
    /// subscriber has still to fetch is kept, in order.
    pub fn reset_index(&mut self, subtrahend: usize)
        requires
            old(self).wf(),
            subtrahend <= old(self)@.index,
            forall|i: int|
                0 <= i < old(self)@.subscribers.len() ==> subtrahend <= #[trigger] old(self)@.subscribers[i].1,
        ensures
            final(self).wf(),
            final(self)@ == old(self)@.compacted(subtrahend as nat),
            forall|n: Seq<char>| #[trigger]
                old(self)@.has_subscriber(n) ==> {
                    &&& final(self)@.has_subscriber(n)
                    &&& final(self)@.index - final(self)@.cursor(n) == old(self)@.index - old(self)@.cursor(n)
                    &&& final(self)@.pending_for(n) == old(self)@.pending_for(n)
                },
    {
        let ghost before = self@;
        let ghost old_subs = self.subscriber@;
        let ghost old_publisher = self.publisher@;
        let ghost old_name = self.name@;
        let ghost old_data = self.data@;
        proof {
            assert forall|k: int| 0 <= k < old_subs.len() implies subtrahend <= #[trigger] old_subs[k].1 by {
                assert(before.subscribers[k].1 == old_subs[k].1);
            }
        }
        let mut i: usize = 0;
        while i < self.subscriber.len()
            invariant
                before == old(self)@,
                self.index == before.index,
                self.data@ == old_data,
                self.publisher@ == old_publisher,
                self.name@ == old_name,
                self.subscriber@.len() == old_subs.len(),
                i <= old_subs.len(),
                forall|k: int| 0 <= k < old_subs.len() ==> subtrahend <= #[trigger] old_subs[k].1,
                forall|k: int|
                    0 <= k < i ==> #[trigger] self.subscriber@[k] == (old_subs[k].0, (old_subs[k].1
                        - subtrahend) as usize),
                forall|k: int| i <= k < old_subs.len() ==> #[trigger] self.subscriber@[k] == old_subs[k],
            decreases old_subs.len() - i,
        {
            assert(subscribers_of(old_subs)[i as int].1 == old_subs[i as int].1);
            let c = self.subscriber[i].1;
            self.subscriber[i].1 = c - subtrahend;
            i = i + 1;
        }
        let tail = self.data.split_off(subtrahend);
        self.data = tail;
        self.index = self.index - subtrahend;
        proof {
            let m = subtrahend as nat;
            assert(self@.data =~= before.data.skip(m as int));
            assert(self@.subscribers =~= before.subscribers.map_values(
                |e: (Seq<char>, nat)| (e.0, (e.1 - m) as nat),
            ));
            assert(self@.subscriber_names() =~= before.subscriber_names());
            assert forall|n: Seq<char>| #[trigger] before.has_subscriber(n) implies {
                &&& self@.has_subscriber(n)
                &&& self@.index - self@.cursor(n) == before.index - before.cursor(n)
                &&& self@.pending_for(n) == before.pending_for(n)
            } by {
                let p = before.position(n);
                assert(0 <= p < before.subscribers.len() && before.subscriber_names()[p] == n);
                assert(self@.subscribers[p].1 == before.subscribers[p].1 - m);
                assert(self@.pending_for(n) =~= before.pending_for(n));
            }
        }
    }

    /// Makes room in the index for `n` more payloads, compacting the topic if
    /// that is needed and enough.
    fn make_room(&mut self, n: usize) -> (r: PublishOutcome)
        requires
            old(self).wf(),
        ensures
            final(self).wf(),
            r == old(self)@.publish_outcome(n as nat),
            final(self)@ == match r {
                PublishOutcome::AppendedAfterReset(m) => old(self)@.compacted(m as nat),
                _ => old(self)@,
            },
            r != PublishOutcome::Rejected ==> final(self)@.index + n <= usize::MAX,
    {
        if n <= usize::MAX - self.index {
            PublishOutcome::Appended
        } else {
            let m = self.compaction_amount();
            proof {
                lemma_lowest_cursor(self@.subscribers, self@.index);
            }
            if n <= usize::MAX - (self.index - m) {
                self.reset_index(m);
                PublishOutcome::AppendedAfterReset(m)
            } else {
                PublishOutcome::Rejected
            }
        }
    }

    /// Appends `data_to_add` and advances the index by one; compacts first
    /// when the index is at its limit, and drops the payload when even that
    /// makes no room.
    pub fn publish(&mut self, data_to_add: T) -> (r: PublishOutcome)
        requires
            old(self).wf(),
        ensures
            final(self).wf(),
            r == old(self)@.publish_outcome(1),
            final(self)@ == old(self)@.published(seq![data_to_add]),
            old(self)@.index < usize::MAX ==> {
                &&& r == PublishOutcome::Appended
                &&& final(self)@.index == old(self)@.index + 1
                &&& final(self)@.data == old(self)@.data.push(data_to_add)
            },
    {
        let r = self.make_room(1);
        match r {
            PublishOutcome::Rejected => {},
            _ => {
                let ghost mid = self@;
                self.data.push(data_to_add);
                self.index = self.index + 1;
                proof {
                    assert(self@.data =~= mid.data + seq![data_to_add]);
                }
            },
        }
        r
    }

    /// Appends all of `data_to_add`, emptying it, and advances the index by
    /// as many; either all are appended or none (then `data_to_add` is left
    /// as it was).
    pub fn publish_multiple(&mut self, data_to_add: &mut Vec<T>) -> (r: PublishOutcome)
        requires
            old(self).wf(),
        ensures
            final(self).wf(),
            r == old(self)@.publish_outcome(old(data_to_add)@.len()),
            final(self)@ == old(self)@.published(old(data_to_add)@),
            r == PublishOutcome::Rejected ==> final(data_to_add)@ == old(data_to_add)@,
            r != PublishOutcome::Rejected ==> final(data_to_add)@.len() == 0,
    {
        let k = data_to_add.len();
        let r = self.make_room(k);
        match r {
            PublishOutcome::Rejected => {},
            _ => {
                self.data.append(data_to_add);
                self.index = self.index + k;
            },
        }
        r
    }

    /// Hands subscriber `identifier`, which must subscribe, copies of the
    /// payloads it has not fetched, in order, and moves its cursor to the
    /// index. The payloads count as delivered from then on.
    pub fn get_data_for_subscriber(&mut self, identifier: String) -> (r: Option<Vec<T>>)
        requires
            old(self).wf(),
            old(self)@.has_subscriber(identifier@),
        ensures
            final(self).wf(),
            final(self)@ == old(self)@.fetched_by(identifier@),
            final(self)@.has_subscriber(identifier@),
            final(self)@.cursor(identifier@) == final(self)@.index,
            match r {
                Some(xs) => {
                    &&& xs@.len() == old(self)@.pending_for(identifier@).len()
                    &&& forall|k: int|
                        0 <= k < xs@.len() ==> cloned(old(self)@.pending_for(identifier@)[k], #[trigger] xs@[k])
                },
                None => false,
            },
    {
        let ghost before = self@;
        match self.position_of_subscriber(&identifier) {
            Some(p) => {
                let c = self.subscriber[p].1;
                let ghost pending = before.pending_for(identifier@);
                let mut xs: Vec<T> = Vec::new();
                let mut i: usize = c;
                while i < self.data.len()
                    invariant
                        self@ == before,
                        before.wf(),
                        c <= i <= self.data@.len(),
                        pending == self.data@.subrange(c as int, self.data@.len() as int),
                        xs@.len() == i - c,
                        forall|k: int| 0 <= k < xs@.len() ==> cloned(pending[k], #[trigger] xs@[k]),
                    decreases self.data@.len() - i,
                {
                    xs.push(self.data[i].clone());
                    i = i + 1;
                }
                self.subscriber[p].1 = self.index;
                proof {
                    assert(self@.subscribers =~= before.subscribers.update(p as int, (identifier@, before.index)));
                    assert(self@.subscriber_names() =~= before.subscriber_names());
                }
                Some(xs)
            },
            None => None,
        }
    }

    /// The topic as readers see it.
    pub fn to_model(&self) -> (r: MessageTopicModel)
        ensures
            is_model_of(r, self@),
    {
        MessageTopicModel { name: self.name.clone(), index: self.index, subscriber: self.get_subscriber_names() }
    }
}

} // verus!
