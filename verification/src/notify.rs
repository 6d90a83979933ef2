//! Events by which the database tells that a task was inserted.
use vstd::prelude::*;

use crate::task_id::PgTaskId;

verus! {

/// Channel on which the database announces inserted tasks.
pub const INSERT_CHANNEL: &'static str = "apalis::job::insert";

/// A task was inserted.
#[derive(Debug)]
pub struct InsertEvent {
    /// Queue of the task.
    pub job_type: String,
    /// Identifier of the task.
    pub id: PgTaskId,
}

/// The identifiers of the tasks that a sequence of notifications is about and that are of
/// `queue`, in the order of the notifications and as often as they occur there. A notification
/// is `None` where it could not be received or its payload is no event.
pub open spec fn ids_for(events: Seq<Option<InsertEvent>>, queue: Seq<char>) -> Seq<PgTaskId> {
    events.filter(
        |event: Option<InsertEvent>| event is Some && event->0.job_type@ == queue,
    ).map_values(|event: Option<InsertEvent>| event->0.id)
}

/// One more notification adds its task's identifier, where it is of the queue, and else nothing.
pub proof fn ids_for_last(events: Seq<Option<InsertEvent>>, queue: Seq<char>)
    requires
        events.len() > 0,
    ensures
        ids_for(events, queue) == match events.last() {
            Some(ev) if ev.job_type@ == queue => ids_for(events.drop_last(), queue).push(ev.id),
            _ => ids_for(events.drop_last(), queue),
        },
{
    reveal(Seq::filter);
    let of_queue = |event: Option<InsertEvent>| event is Some && event->0.job_type@ == queue;
    let id = |event: Option<InsertEvent>| event->0.id;
    assert(events.filter(of_queue).map_values(id) =~= if of_queue(events.last()) {
        events.drop_last().filter(of_queue).map_values(id).push(id(events.last()))
    } else {
        events.drop_last().filter(of_queue).map_values(id)
    });
}

/// Listens to a channel for the tasks of one queue.
pub struct Listener {
    /// Channel to listen to.
    pub channel: String,
    /// Queue whose tasks are wanted.
    pub namespace: String,
}

impl Listener {
    /// The task that an event is about, where it is one of the queue's.
    pub open spec fn accepted(&self, event: Option<InsertEvent>) -> Option<PgTaskId> {
        match event {
            Some(ev) => if ev.job_type@ == self.namespace@ {
                Some(ev.id)
            } else {
                None
            },
            None => None,
        }
    }

    /// The tasks that the listener accepts out of a sequence of events, one after the other.
    pub open spec fn accepted_ids(&self, events: Seq<Option<InsertEvent>>) -> Seq<PgTaskId> {
        events.filter_map(|event: Option<InsertEvent>| self.accepted(event))
    }

    /// A listener for the tasks that are inserted into the queue `namespace`.
    pub fn new(namespace: &String) -> (listener: Self)
        ensures
            listener.channel@ == INSERT_CHANNEL@,
            listener.namespace == *namespace,
    {
        Listener { channel: INSERT_CHANNEL.to_owned(), namespace: namespace.clone() }
    }

    /// The task that a notification is about, where it is one of the queue's. The event is
    /// `None` where the notification could not be received or its payload is no event.
    pub fn accept(&self, event: Option<InsertEvent>) -> (id: Option<PgTaskId>)
        ensures
            id == self.accepted(event),
    {
        match event {
            Some(ev) => if ev.job_type == self.namespace {
                Some(ev.id)
            } else {
                None
            },
            None => None,
        }
    }
}

/// Of all the notifications that a listener gets it accepts exactly those of its queue, in
/// their order and with none lost, added or left out for being there twice.
pub proof fn listener_accepts_exactly_its_queue(
    listener: Listener,
    events: Seq<Option<InsertEvent>>,
)
    ensures
        listener.accepted_ids(events) == ids_for(events, listener.namespace@),
    decreases events.len(),
{
    if events.len() == 0 {
        reveal(Seq::filter);
        assert(listener.accepted_ids(events) =~= ids_for(events, listener.namespace@));
    } else {
        listener_accepts_exactly_its_queue(listener, events.drop_last());
        ids_for_last(events, listener.namespace@);
        assert(listener.accepted_ids(events) =~= match listener.accepted(events.last()) {
            Some(id) => listener.accepted_ids(events.drop_last()).push(id),
            None => listener.accepted_ids(events.drop_last()),
        });
    }
}

/// A listener accepts an event if and only if it is of its queue, and then it is told the
/// identifier that the event brings. Two listeners for the same queue accept the same.
pub proof fn listener_accepts_by_the_queue(listener: Listener, event: InsertEvent)
    ensures
        listener.accepted(Some(event)) is Some <==> event.job_type@ == listener.namespace@,
        listener.accepted(Some(event)) matches Some(id) ==> id.ulid == event.id.ulid,
        listener.accepted(None) is None,
{
}

/// Where there are no notifications there are no identifiers.
pub proof fn ids_for_none(queue: Seq<char>)
    ensures
        ids_for(Seq::<Option<InsertEvent>>::empty(), queue).len() == 0,
{
    reveal(Seq::filter);
}

/// Inserted tasks are announced on one channel, whatever the queue.
pub proof fn insertions_have_one_channel()
    ensures
        INSERT_CHANNEL@ == "apalis::job::insert"@,
{
}

} // verus!
