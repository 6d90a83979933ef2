//! Which queue's events go through which channel.
use vstd::prelude::*;

use crate::notify::{ids_for, ids_for_last, InsertEvent};
use crate::task_id::PgTaskId;

verus! {

/// Names and their channels, side by side.
struct Table<C> {
    names: Vec<String>,
    channels: Vec<C>,
}

impl<C> Table<C> {
    /// Each name has a channel, and no name occurs twice.
    spec fn wf(self) -> bool {
        &&& self.names@.len() == self.channels@.len()
        &&& forall|i: int, j: int|
            0 <= i < j < self.names@.len() ==> (#[trigger] self.names@[i])@ != (
            #[trigger] self.names@[j])@
    }

    /// Whether a name stands at an index.
    spec fn holds(self, name: Seq<char>, i: int) -> bool {
        0 <= i < self.names@.len() && self.names@[i]@ == name
    }

    /// The channels by their names.
    spec fn map(self) -> Map<Seq<char>, C> {
        Map::new(
            |name: Seq<char>| exists|i: int| self.holds(name, i),
            |name: Seq<char>| self.channels@[choose|i: int| self.holds(name, i)],
        )
    }

    fn index_of(&self, name: &String) -> (found: Option<usize>)
        ensures
            match found {
                Some(i) => self.holds(name@, i as int),
                None => forall|i: int| !self.holds(name@, i),
            },
    {
        let mut i: usize = 0;
        while i < self.names.len()
            invariant
                i <= self.names@.len(),
                forall|j: int| 0 <= j < i ==> !self.holds(name@, j),
            decreases self.names@.len() - i,
        {
            if self.names[i] == *name {
                assert(self.holds(name@, i as int));
                return Some(i);
            }
            i += 1;
        }
        None
    }

    proof fn lemma_map(self, name: Seq<char>, i: int)
        requires
            self.wf(),
            self.holds(name, i),
        ensures
            self.map().contains_key(name),
            self.map()[name] == self.channels@[i],
    {
        let j = choose|j: int| self.holds(name, j);
        assert(self.holds(name, j));
        assert(self.names@[i]@ == self.names@[j]@);
    }

    /// Replacing the channel at a place replaces that of the name there.
    proof fn lemma_replace(self, after: Self, i: int, channel: C)
        requires
            self.wf(),
            0 <= i < self.names@.len(),
            after.names@ == self.names@,
            after.channels@ == self.channels@.update(i, channel),
        ensures
            after.wf(),
            after.map() == self.map().insert(self.names@[i]@, channel),
    {
        let name = self.names@[i]@;
        assert(self.holds(name, i));
        assert forall|other: Seq<char>, j: int| after.holds(other, j) == self.holds(other, j) by {}
        assert forall|other: Seq<char>| #[trigger]
            after.map().contains_key(other) implies self.map().insert(name, channel).contains_key(
            other,
        ) && after.map()[other] == self.map().insert(name, channel)[other] by {
            let j = choose|j: int| after.holds(other, j);
            assert(self.holds(other, j));
            after.lemma_map(other, j);
            self.lemma_map(other, j);
        }
        assert forall|other: Seq<char>| #[trigger]
            self.map().insert(name, channel).contains_key(other) implies after.map().contains_key(
            other,
        ) by {
            if other == name {
                assert(after.holds(other, i));
            } else {
                let j = choose|j: int| self.holds(other, j);
                assert(after.holds(other, j));
            }
        }
        assert(after.map() =~= self.map().insert(name, channel));
    }

    /// Appending a new name with its channel adds them.
    proof fn lemma_append(self, after: Self, name: String, channel: C)
        requires
            self.wf(),
            forall|i: int| !self.holds(name@, i),
            after.names@ == self.names@.push(name),
            after.channels@ == self.channels@.push(channel),
        ensures
            after.wf(),
            after.map() == self.map().insert(name@, channel),
    {
        let last = self.names@.len() as int;
        assert(after.holds(name@, last));
        assert forall|i: int, j: int| 0 <= i < j < after.names@.len() implies (
        #[trigger] after.names@[i])@ != (#[trigger] after.names@[j])@ by {
            assert(!self.holds(name@, i));
        }
        assert forall|other: Seq<char>, j: int| #[trigger]
            self.holds(other, j) implies after.holds(other, j) by {}
        assert forall|other: Seq<char>| #[trigger]
            after.map().contains_key(other) implies self.map().insert(name@, channel).contains_key(
            other,
        ) && after.map()[other] == self.map().insert(name@, channel)[other] by {
            let j = choose|j: int| after.holds(other, j);
            after.lemma_map(other, j);
            if j == last {
            } else {
                assert(self.holds(other, j));
                self.lemma_map(other, j);
            }
        }
        assert forall|other: Seq<char>| #[trigger]
            self.map().insert(name@, channel).contains_key(other) implies after.map().contains_key(
            other,
        ) by {
            if other != name@ {
                let j = choose|j: int| self.holds(other, j);
                assert(after.holds(other, j));
            }
        }
        assert(after.map() =~= self.map().insert(name@, channel));
    }

    fn insert(&mut self, name: String, channel: C) -> (replaced: Option<C>)
        requires
            old(self).wf(),
        ensures
            final(self).wf(),
            final(self).map() == old(self).map().insert(name@, channel),
            replaced == (if old(self).map().contains_key(name@) {
                Some(old(self).map()[name@])
            } else {
                None
            }),
    {
        match self.index_of(&name) {
            Some(i) => {
                proof {
                    self.lemma_map(name@, i as int);
                }
                let mut slot = channel;
                std::mem::swap(&mut self.channels[i], &mut slot);
                proof {
                    old(self).lemma_replace(*self, i as int, channel);
                }
                Some(slot)
            },
            None => {
                let ghost added = name;
                self.names.push(name);
                self.channels.push(channel);
                proof {
                    old(self).lemma_append(*self, added, channel);
                }
                None
            },
        }
    }
}

/// The queues that share one listener, each with the channel its events go through.
pub struct Registry<C> {
    table: Table<C>,
}

impl<C> Registry<C> {
    #[verifier::type_invariant]
    spec fn table_is_wf(self) -> bool {
        self.table.wf()
    }

    /// The channels by the names of their queues.
    pub closed spec fn view(&self) -> Map<Seq<char>, C> {
        self.table.map()
    }

    /// A registry without queues.
    pub fn new() -> (registry: Self)
        ensures
            registry@ == Map::<Seq<char>, C>::empty(),
    {
        let registry = Registry { table: Table { names: Vec::new(), channels: Vec::new() } };
        assert(registry@ =~= Map::<Seq<char>, C>::empty());
        registry
    }

    /// Sets the channel of a queue and returns the one that the queue had.
    pub fn insert(&mut self, queue: String, channel: C) -> (replaced: Option<C>)
        ensures
            final(self)@ == old(self)@.insert(queue@, channel),
            replaced == (if old(self)@.contains_key(queue@) {
                Some(old(self)@[queue@])
            } else {
                None
            }),
    {
        proof {
            use_type_invariant(&*self);
        }
        let mut table = Table { names: Vec::new(), channels: Vec::new() };
        std::mem::swap(&mut table, &mut self.table);
        let replaced = table.insert(queue, channel);
        self.table = table;
        replaced
    }

    /// Whether a queue has a channel.
    pub fn contains(&self, queue: &String) -> (found: bool)
        ensures
            found == self@.contains_key(queue@),
    {
        match self.table.index_of(queue) {
            Some(_) => true,
            None => false,
        }
    }

    /// The channel of a queue, where it has one.
    fn get_mut(&mut self, queue: &String) -> (channel: Option<&mut C>)
        ensures
            channel is Some <==> old(self)@.contains_key(queue@),
            channel matches Some(c) ==> {
                &&& *c == old(self)@[queue@]
                &&& final(self)@ == old(self)@.insert(queue@, *final(c))
            },
            channel is None ==> final(self)@ == old(self)@,
    {
        proof {
            use_type_invariant(&*self);
        }
        match self.table.index_of(queue) {
            Some(i) => {
                proof {
                    let table = self.table;
                    table.lemma_map(queue@, i as int);
                    assert forall|after: Table<C>, channel: C|
                        #![trigger after.map(), table.channels@.update(i as int, channel)]
                        after.names@ == table.names@ && after.channels@ == table.channels@.update(
                            i as int,
                            channel,
                        ) implies after.map() == table.map().insert(queue@, channel) by {
                        table.lemma_replace(after, i as int, channel);
                    }
                }
                Some(&mut self.table.channels[i])
            },
            None => None,
        }
    }

    /// The event that a notification brings, where it is for one of the queues. The event is
    /// `None` where the notification could not be received or its payload is no event.
    pub fn route(&self, event: Option<InsertEvent>) -> (routed: Option<InsertEvent>)
        ensures
            routed == route_of(self@, event),
    {
        match event {
            Some(ev) => if self.contains(&ev.job_type) {
                Some(ev)
            } else {
                None
            },
            None => None,
        }
    }

    /// The channel of an event's queue, and the identifier to be sent through it. There is none
    /// where the queue has no channel.
    pub fn dispatch(&mut self, event: InsertEvent) -> (delivery: Option<(&mut C, PgTaskId)>)
        ensures
            delivery is Some <==> delivery_of(old(self)@, event) is Some,
            delivery matches Some((c, id)) ==> {
                &&& delivery_of(old(self)@, event) == Some((event.job_type@, id))
                &&& *c == old(self)@[event.job_type@]
                &&& final(self)@ == old(self)@.insert(event.job_type@, *final(c))
            },
            delivery is None ==> final(self)@ == old(self)@,
    {
        match self.get_mut(&event.job_type) {
            Some(channel) => Some((channel, event.id)),
            None => None,
        }
    }
}

/// What becomes of a notification's event: it goes on where it is for one of the queues.
pub open spec fn route_of<C>(
    channels: Map<Seq<char>, C>,
    event: Option<InsertEvent>,
) -> Option<InsertEvent> {
    match event {
        Some(ev) => if channels.contains_key(ev.job_type@) {
            event
        } else {
            None
        },
        None => None,
    }
}

/// What is to be sent for an event: to which queue, and which identifier. There is nothing where
/// the queue has no channel.
pub open spec fn delivery_of<C>(
    channels: Map<Seq<char>, C>,
    event: InsertEvent,
) -> Option<(Seq<char>, PgTaskId)> {
    if channels.contains_key(event.job_type@) {
        Some((event.job_type@, event.id))
    } else {
        None
    }
}

/// What is sent for a sequence of notifications: to which queue, and which identifier. Each of
/// them is routed by a registry that holds `routing` at its place, and what goes on is dispatched
/// by one that holds `sending`.
pub open spec fn deliveries<C>(
    routing: Seq<Map<Seq<char>, C>>,
    sending: Seq<Map<Seq<char>, C>>,
    events: Seq<Option<InsertEvent>>,
) -> Seq<(Seq<char>, PgTaskId)>
    decreases events.len(),
{
    if events.len() == 0 {
        Seq::empty()
    } else {
        let before = deliveries(routing.drop_last(), sending.drop_last(), events.drop_last());
        match route_of(routing.last(), events.last()) {
            Some(ev) => match delivery_of(sending.last(), ev) {
                Some(delivery) => before.push(delivery),
                None => before,
            },
            None => before,
        }
    }
}

/// What a queue gets of what is sent, in order.
pub open spec fn sent_to(sent: Seq<(Seq<char>, PgTaskId)>, queue: Seq<char>) -> Seq<PgTaskId> {
    sent.filter(|d: (Seq<char>, PgTaskId)| d.0 == queue).map_values(|d: (Seq<char>, PgTaskId)| d.1)
}

proof fn lemma_sent_to_push(
    sent: Seq<(Seq<char>, PgTaskId)>,
    last: (Seq<char>, PgTaskId),
    queue: Seq<char>,
)
    ensures
        sent_to(sent.push(last), queue) == if last.0 == queue {
            sent_to(sent, queue).push(last.1)
        } else {
            sent_to(sent, queue)
        },
{
    reveal(Seq::filter);
    assert(sent.push(last).drop_last() =~= sent);
    assert(sent_to(sent.push(last), queue) =~= if last.0 == queue {
        sent_to(sent, queue).push(last.1)
    } else {
        sent_to(sent, queue)
    });
}

/// A queue that is registered throughout gets exactly its own identifiers out of a sequence of
/// notifications, in their order and each as often as it was announced. What is not received,
/// is no event or is for another queue is passed over, and what comes after it is routed all the
/// same. A queue that is registered at no time gets nothing. No event that was routed is without
/// a channel when it is dispatched, since no queue loses its channel in between.
pub proof fn queue_gets_exactly_its_own<C>(
    routing: Seq<Map<Seq<char>, C>>,
    sending: Seq<Map<Seq<char>, C>>,
    events: Seq<Option<InsertEvent>>,
    queue: Seq<char>,
)
    requires
        routing.len() == events.len(),
        sending.len() == events.len(),
        forall|i: int|
            0 <= i < events.len() ==> (#[trigger] routing[i]).dom().subset_of(sending[i].dom()),
    ensures
        (forall|i: int| 0 <= i < routing.len() ==> (#[trigger] routing[i]).contains_key(queue))
            ==> sent_to(deliveries(routing, sending, events), queue) == ids_for(events, queue),
        (forall|i: int| 0 <= i < routing.len() ==> !(#[trigger] routing[i]).contains_key(queue))
            ==> sent_to(deliveries(routing, sending, events), queue) == Seq::<PgTaskId>::empty(),
        forall|i: int|
            0 <= i < events.len() ==> (route_of(#[trigger] routing[i], events[i]) matches Some(ev)
                ==> delivery_of(sending[i], ev) is Some),
    decreases events.len(),
{
    if events.len() == 0 {
        reveal(Seq::filter);
        assert(sent_to(deliveries(routing, sending, events), queue) =~= Seq::<PgTaskId>::empty());
        assert(ids_for(events, queue) =~= Seq::<PgTaskId>::empty());
    } else {
        let (fewer_routing, fewer_sending) = (routing.drop_last(), sending.drop_last());
        assert(forall|i: int|
            0 <= i < routing.len() - 1 ==> (#[trigger] fewer_routing[i]) == routing[i]
                && fewer_sending[i] == sending[i]);
        assert(forall|i: int|
            0 <= i < routing.len() - 1 ==> (#[trigger] routing[i]) == fewer_routing[i]);
        queue_gets_exactly_its_own(fewer_routing, fewer_sending, events.drop_last(), queue);
        ids_for_last(events, queue);
        assert(routing.last() == routing[routing.len() - 1]);
        if let Some(ev) = route_of(routing.last(), events.last()) {
            lemma_sent_to_push(
                deliveries(fewer_routing, fewer_sending, events.drop_last()),
                (ev.job_type@, ev.id),
                queue,
            );
        }
    }
}

/// What a registry holds after the given queues have been entered, each with its channel.
pub open spec fn after_entries<C>(
    channels: Map<Seq<char>, C>,
    entries: Seq<(Seq<char>, C)>,
) -> Map<Seq<char>, C>
    decreases entries.len(),
{
    if entries.len() == 0 {
        channels
    } else {
        after_entries(channels, entries.drop_last()).insert(entries.last().0, entries.last().1)
    }
}

/// A queue that has a channel keeps having one, whatever is entered later, and keeps its own as
/// long as the queue itself is not entered again. So an event that was routed can be dispatched
/// even if the registry was released in between.
pub proof fn registered_queue_stays_registered<C>(
    channels: Map<Seq<char>, C>,
    entries: Seq<(Seq<char>, C)>,
    queue: Seq<char>,
)
    requires
        channels.contains_key(queue),
    ensures
        after_entries(channels, entries).contains_key(queue),
        (forall|i: int| 0 <= i < entries.len() ==> (#[trigger] entries[i]).0 != queue)
            ==> after_entries(channels, entries)[queue] == channels[queue],
    decreases entries.len(),
{
    if entries.len() > 0 {
        registered_queue_stays_registered(channels, entries.drop_last(), queue);
        assert(entries.last() == entries[entries.len() - 1]);
        assert(forall|i: int|
            0 <= i < entries.len() - 1 ==> (#[trigger] entries.drop_last()[i]) == entries[i]);
    }
}

/// A queue that has no channel gets none while others are entered.
pub proof fn unentered_queue_stays_out<C>(
    channels: Map<Seq<char>, C>,
    entries: Seq<(Seq<char>, C)>,
    queue: Seq<char>,
)
    requires
        !channels.contains_key(queue),
        forall|i: int| 0 <= i < entries.len() ==> (#[trigger] entries[i]).0 != queue,
    ensures
        !after_entries(channels, entries).contains_key(queue),
    decreases entries.len(),
{
    if entries.len() > 0 {
        assert(entries.last() == entries[entries.len() - 1]);
        assert(forall|i: int|
            0 <= i < entries.len() - 1 ==> (#[trigger] entries.drop_last()[i]) == entries[i]);
        unentered_queue_stays_out(channels, entries.drop_last(), queue);
    }
}

/// An event is routed if and only if its queue is registered, and goes on as it came.
pub proof fn event_is_routed_by_its_queue<C>(channels: Map<Seq<char>, C>, event: InsertEvent)
    ensures
        route_of(channels, Some(event)) is Some <==> channels.contains_key(event.job_type@),
        route_of(channels, Some(event)) matches Some(routed) ==> routed == event,
        route_of(channels, None) is None,
{
}

/// What is sent for an event is the event's own identifier, to the event's own queue, if and only
/// if that is registered.
pub proof fn event_is_sent_to_its_queue<C>(channels: Map<Seq<char>, C>, event: InsertEvent)
    ensures
        delivery_of(channels, event) is Some <==> channels.contains_key(event.job_type@),
        delivery_of(channels, event) matches Some((queue, id)) ==> queue == event.job_type@
            && id.ulid == event.id.ulid,
{
}

} // verus!
