//! What a storage has its streams do against the database.
use vstd::prelude::*;

use std::sync::Arc;

use crate::config::{Config, Nanos};
use crate::fetcher::PgPollFetcher;
use crate::notify::{InsertEvent, Listener};
use crate::poll::{is_row_item, looked_up_task_is_yielded, Item};
use crate::task::{is_status, CompactType, TaskRow};
use crate::task_id::{id_text, id_text_is_base_32, id_text_reads_back, parsed_id, PgTaskId};

verus! {

/// Registers a worker, and with it the kind of storage that it runs on.
pub struct Registration<Pool> {
    pub pool: Arc<Pool>,
    pub config: Config,
    pub worker: String,
    pub storage_type: String,
}

/// Keeps a worker's registration alive.
pub struct KeepAlive<Pool> {
    pub pool: Arc<Pool>,
    pub config: Config,
    pub worker: String,
}

/// Puts the tasks of dead workers back, once in every `interval`.
pub struct Reenqueue<Pool> {
    pub pool: Arc<Pool>,
    pub config: Config,
    pub interval: Nanos,
}

/// What goes on beside the fetching of tasks for as long as a worker runs; the two run side by
/// side.
pub struct Heartbeat<Pool> {
    pub keep_alive: KeepAlive<Pool>,
    pub reenqueue: Reenqueue<Pool>,
}

/// Fetches, for a worker, the tasks whose identifiers come from `source`, as they come and at
/// most `buffer_size` at once.
pub struct LazyFetch<Pool, Source> {
    pub source: Source,
    pub pool: Arc<Pool>,
    pub worker_id: String,
    pub buffer_size: usize,
}

/// Queues the tasks with these identifiers for a worker and returns their rows.
pub struct QueueById {
    pub ids: Vec<String>,
    pub worker_id: String,
}

impl QueueById {
    /// Whether the query asks for the tasks of a batch: their identifiers' texts, in order.
    pub open spec fn asks_for(&self, batch: Seq<PgTaskId>) -> bool {
        &&& self.ids@.len() == batch.len()
        &&& forall|i: int|
            0 <= i < batch.len() ==> (#[trigger] self.ids@[i])@ == id_text(batch[i].ulid)
    }
}

/// The texts of the identifiers that a query asks for.
pub open spec fn query_texts(query: QueueById) -> Seq<Seq<char>> {
    query.ids@.map_values(|id: String| id@)
}

/// The texts that a sequence of queries asks for, one query after the other.
pub open spec fn all_query_texts(queries: Seq<QueueById>) -> Seq<Seq<char>> {
    queries.map_values(|query: QueueById| query_texts(query)).flatten()
}

/// The texts of identifiers.
pub open spec fn id_texts(ids: Seq<PgTaskId>) -> Seq<Seq<char>> {
    ids.map_values(|id: PgTaskId| id_text(id.ulid))
}

/// Whether `batches` are identifiers taken together as they came: in order, none lost or added,
/// and each batch with at least one and at most `size` of them.
pub open spec fn are_batches(ids: Seq<PgTaskId>, batches: Seq<Seq<PgTaskId>>, size: usize) -> bool {
    &&& batches.flatten() == ids
    &&& forall|i: int| 0 <= i < batches.len() ==> 1 <= (#[trigger] batches[i]).len() <= size
}

impl<Pool, Source> LazyFetch<Pool, Source> {
    /// Whether the queries are the ones for the given batches, one each and in order, on behalf
    /// of the worker.
    pub open spec fn is_queried_by(
        &self,
        batches: Seq<Seq<PgTaskId>>,
        queries: Seq<QueueById>,
    ) -> bool {
        &&& queries.len() == batches.len()
        &&& forall|i: int|
            0 <= i < queries.len() ==> (#[trigger] queries[i]).asks_for(batches[i])
                && queries[i].worker_id == self.worker_id
    }

    /// The query for a batch of tasks, on behalf of the worker.
    pub fn query(&self, batch: Vec<PgTaskId>) -> (query: QueueById)
        ensures
            query.worker_id == self.worker_id,
            query.asks_for(batch@),
    {
        let mut ids: Vec<String> = Vec::new();
        let mut i: usize = 0;
        while i < batch.len()
            invariant
                i <= batch@.len(),
                ids@.len() == i,
                forall|j: int| 0 <= j < i ==> (#[trigger] ids@[j])@ == id_text(batch@[j].ulid),
            decreases batch@.len() - i,
        {
            ids.push(batch[i].to_string());
            i += 1;
        }
        QueueById { ids, worker_id: self.worker_id.clone() }
    }
}

/// A stream of tasks: `register` gives its first item, and then `lazy` and `eager` give theirs
/// as they come.
pub struct PollPlan<Pool, Lazy> {
    pub register: Registration<Pool>,
    pub lazy: Lazy,
    pub eager: PgPollFetcher<Pool, CompactType>,
}

proof fn lemma_texts_of_batches(batches: Seq<Seq<PgTaskId>>, queries: Seq<QueueById>)
    requires
        queries.len() == batches.len(),
        forall|i: int| 0 <= i < queries.len() ==> (#[trigger] queries[i]).asks_for(batches[i]),
    ensures
        all_query_texts(queries) == id_texts(batches.flatten()),
    decreases queries.len(),
{
    let texts = queries.map_values(|query: QueueById| query_texts(query));
    if queries.len() == 0 {
        assert(all_query_texts(queries) =~= id_texts(batches.flatten()));
    } else {
        let rest = queries.drop_first();
        assert(forall|i: int|
            0 <= i < rest.len() ==> (#[trigger] rest[i]) == queries[i + 1]
                && batches.drop_first()[i] == batches[i + 1]);
        lemma_texts_of_batches(batches.drop_first(), rest);
        assert(texts.drop_first() =~= rest.map_values(|query: QueueById| query_texts(query)));
        assert(texts.first() == query_texts(queries[0]));
        assert(query_texts(queries[0]) =~= id_texts(batches[0])) by {
            assert(queries[0].asks_for(batches[0]));
        }
        assert(id_texts(batches.flatten()) =~= id_texts(batches.first()) + id_texts(
            batches.drop_first().flatten(),
        ));
    }
}

/// The queries for identifiers that come in batches ask, taken together, for exactly these
/// identifiers: in their order, with none lost, added or left out for being there twice. Each
/// query is on behalf of the worker and asks for at least one and at most `buffer_size` tasks.
pub proof fn queries_ask_for_every_id_in_order<Pool, Source>(
    lazy: LazyFetch<Pool, Source>,
    ids: Seq<PgTaskId>,
    batches: Seq<Seq<PgTaskId>>,
    queries: Seq<QueueById>,
)
    requires
        are_batches(ids, batches, lazy.buffer_size),
        lazy.is_queried_by(batches, queries),
    ensures
        all_query_texts(queries) == id_texts(ids),
        forall|i: int|
            0 <= i < queries.len() ==> 1 <= (#[trigger] queries[i]).ids@.len() <= lazy.buffer_size
                && queries[i].worker_id == lazy.worker_id,
{
    lemma_texts_of_batches(batches, queries);
    assert forall|i: int| 0 <= i < queries.len() implies 1 <= (
    #[trigger] queries[i]).ids@.len() <= lazy.buffer_size by {
        assert(queries[i].asks_for(batches[i]));
    }
}

/// A task whose insertion was announced to a queue's listener is yielded: when the identifiers
/// that the listener accepted are queried for and the row that is found for the event's has a
/// known status and a schedule, the row's item is the task that the event was about, with its
/// arguments as stored.
pub proof fn announced_task_is_yielded<E, D>(
    listener: Listener,
    event: InsertEvent,
    batch: Seq<PgTaskId>,
    i: int,
    query: QueueById,
    row: TaskRow,
    item: Item<CompactType, E, D>,
)
    requires
        event.job_type@ == listener.namespace@,
        0 <= i < batch.len(),
        listener.accepted(Some(event)) == Some(batch[i]),
        query.asks_for(batch),
        row.id@ == query.ids@[i]@,
        is_status(row.status@),
        row.run_at is Some,
        is_row_item(Ok::<TaskRow, E>(row), item),
    ensures
        item matches Ok(Some(task)) && task.parts.task_id == Some(event.id) && task.args == row.job,
{
    looked_up_task_is_yielded(row, event.id, item);
}

/// A query has as many texts as its batch has identifiers, and each text is the one that the
/// identifier in its place is read back from: 26 symbols, which no other identifier has.
pub proof fn query_asks_for_its_whole_batch(query: QueueById, batch: Seq<PgTaskId>)
    requires
        query.asks_for(batch),
    ensures
        query.ids@.len() == batch.len(),
        forall|i: int|
            0 <= i < batch.len() ==> {
                &&& (#[trigger] query.ids@[i])@.len() == 26
                &&& query.ids@[i]@ == id_text(batch[i].ulid)
                &&& parsed_id(query.ids@[i]@) == Ok::<u128, Seq<char>>(batch[i].ulid)
            },
{
    assert forall|i: int| 0 <= i < batch.len() implies (#[trigger] query.ids@[i])@.len() == 26
        && parsed_id(query.ids@[i]@) == Ok::<u128, Seq<char>>(batch[i].ulid) by {
        id_text_reads_back(batch[i]);
        id_text_is_base_32(batch[i].ulid);
    }
}

} // verus!
