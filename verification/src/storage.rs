//! The storage: tasks of one queue in a Postgres database.
use vstd::arithmetic::power2::pow2;
use vstd::prelude::*;

use core::marker::PhantomData;
use std::sync::Arc;

use apalis_codec::json::JsonCodec;

use crate::ack::{LockTaskLayer, PgAck};
use crate::config::{Config, Nanos};
use crate::fetcher::{
    delay_after, delay_keeps_to_ceiling, idle_delay, idle_delay_is_bounded_by_the_ceiling_alone,
    PgFetcher, PgPollFetcher, DEFAULT_MAX_POLL_BACKOFF, FIRST_POLL_DELAY,
};
use crate::notify::{ids_for, listener_accepts_exactly_its_queue, InsertEvent, Listener};
use crate::plan::{
    all_query_texts, are_batches, id_texts, queries_ask_for_every_id_in_order, Heartbeat, KeepAlive,
    LazyFetch, PollPlan, QueueById, Reenqueue, Registration,
};
use crate::sink::PgSink;
use crate::task::CompactType;
use crate::task_id::PgTaskId;

verus! {

/// The JSON codec of `apalis_codec`, which the library only names.
#[verifier::external_type_specification]
#[verifier::external_body]
#[verifier::reject_recursive_types(Output)]
pub struct ExJsonCodec<Output>(apalis_codec::json::JsonCodec<Output>);

/// Stores tasks with arguments of type `Args` in a database and fetches them.
///
/// `Pool` is the pool of connections to the database, `Compact` the form in which arguments
/// are stored, `Codec` what turns the one into the other, and `Fetcher` says how tasks are
/// fetched.
pub struct PostgresStorage<
    Args,
    Pool,
    Compact = CompactType,
    Codec = JsonCodec<CompactType>,
    Fetcher = PgFetcher<Compact, Codec>,
> {
    _marker: PhantomData<(Args, Compact, Codec)>,
    pool: Arc<Pool>,
    config: Config,
    max_poll_backoff: Nanos,
    fetcher: Fetcher,
    sink: PgSink<Args, Pool, Compact, Codec>,
}

/// What tells two storages apart.
pub ghost struct StorageView<Pool, Fetcher> {
    pub pool: Arc<Pool>,
    pub config: Config,
    pub max_poll_backoff: Nanos,
    pub fetcher: Fetcher,
}

/// Marks a storage that is told by the database when tasks are inserted.
#[derive(Debug)]
pub struct PgNotify {
    _private: PhantomData<()>,
}

impl Clone for PgNotify {
    fn clone(&self) -> (fetcher: Self)
        ensures
            fetcher == *self,
    {
        PgNotify { _private: PhantomData }
    }
}

impl Default for PgNotify {
    fn default() -> (fetcher: Self)
        ensures
            fetcher == PgNotify::only(),
    {
        PgNotify { _private: PhantomData }
    }
}

impl PgNotify {
    /// The one value of the type.
    pub closed spec fn only() -> PgNotify {
        PgNotify { _private: PhantomData }
    }
}

impl<Args, Pool, Compact, Codec, Fetcher> PostgresStorage<Args, Pool, Compact, Codec, Fetcher> {
    /// The storage's sink pushes to the storage's own queue.
    #[verifier::type_invariant]
    spec fn sink_is_own(self) -> bool {
        self.sink.pool == self.pool && self.sink.config == self.config
    }

    pub closed spec fn view(&self) -> StorageView<Pool, Fetcher> {
        StorageView {
            pool: self.pool,
            config: self.config,
            max_poll_backoff: self.max_poll_backoff,
            fetcher: self.fetcher,
        }
    }

    /// A storage made of its parts.
    pub(crate) fn assemble(
        pool: Arc<Pool>,
        config: Config,
        max_poll_backoff: Nanos,
        fetcher: Fetcher,
    ) -> (storage: Self)
        ensures
            storage@ == (StorageView { pool, config, max_poll_backoff, fetcher }),
    {
        let sink = PgSink::new(&pool, &config);
        PostgresStorage { _marker: PhantomData, pool, config, max_poll_backoff, fetcher, sink }
    }
}

impl<Args, Pool, Compact, Codec, Fetcher: Clone> Clone for PostgresStorage<
    Args,
    Pool,
    Compact,
    Codec,
    Fetcher,
> {
    fn clone(&self) -> (storage: Self)
        ensures
            storage@.pool == self@.pool,
            storage@.config == self@.config,
            storage@.max_poll_backoff == self@.max_poll_backoff,
            cloned(self@.fetcher, storage@.fetcher),
    {
        proof {
            use_type_invariant(self);
        }
        PostgresStorage {
            _marker: PhantomData,
            pool: self.pool.clone(),
            config: self.config.clone(),
            max_poll_backoff: self.max_poll_backoff,
            fetcher: self.fetcher.clone(),
            sink: self.sink.clone(),
        }
    }
}

impl<Args, Pool> PostgresStorage<Args, Pool> {
    /// A storage that polls, with the default settings, for the queue that is named after the
    /// type of its arguments.
    pub fn new(pool: &Arc<Pool>, args_type: &str) -> (storage: Self)
        ensures
            storage@.pool == *pool,
            storage@.config.queue@ == args_type@,
            storage@.config.is_default(),
            storage@.max_poll_backoff == DEFAULT_MAX_POLL_BACKOFF,
    {
        let config = Config::new(args_type);
        Self::new_with_config(pool, &config)
    }

    /// A storage that polls.
    pub fn new_with_config(pool: &Arc<Pool>, config: &Config) -> (storage: Self)
        ensures
            storage@.pool == *pool,
            storage@.config == *config,
            storage@.max_poll_backoff == DEFAULT_MAX_POLL_BACKOFF,
    {
        Self::assemble(
            pool.clone(),
            config.clone(),
            DEFAULT_MAX_POLL_BACKOFF,
            PgFetcher { _marker: PhantomData },
        )
    }

    /// A storage that polls and, between polls, is told of inserted tasks.
    pub fn new_with_notify(pool: &Arc<Pool>, config: &Config) -> (storage: PostgresStorage<
        Args,
        Pool,
        CompactType,
        JsonCodec<CompactType>,
        PgNotify,
    >)
        ensures
            storage@.pool == *pool,
            storage@.config == *config,
            storage@.max_poll_backoff == DEFAULT_MAX_POLL_BACKOFF,
            storage@.fetcher == PgNotify::only(),
    {
        PostgresStorage::assemble(
            pool.clone(),
            config.clone(),
            DEFAULT_MAX_POLL_BACKOFF,
            PgNotify::default(),
        )
    }
}

impl<Args, Pool, Compact, Codec, Fetcher> PostgresStorage<Args, Pool, Compact, Codec, Fetcher> {
    /// The pool of connections.
    pub fn pool(&self) -> (pool: &Arc<Pool>)
        ensures
            *pool == self@.pool,
    {
        &self.pool
    }

    /// The settings of the queue.
    pub fn config(&self) -> (config: &Config)
        ensures
            *config == self@.config,
    {
        &self.config
    }

    /// The sink that pushes tasks to the storage's queue.
    pub fn sink(&self) -> (sink: &PgSink<Args, Pool, Compact, Codec>)
        ensures
            sink.pool == self@.pool,
            sink.config == self@.config,
    {
        proof {
            use_type_invariant(self);
        }
        &self.sink
    }

    /// Sets the ceiling for the polling fetcher's idle backoff.
    ///
    /// The fetcher doubles its poll delay from one second every time a fetch comes back empty,
    /// and resets to one second as soon as one returns work. This caps how far the doubling
    /// goes, and therefore the worst-case pickup latency of an idle queue. Defaults to
    /// [`DEFAULT_MAX_POLL_BACKOFF`].
    #[must_use]
    pub fn set_max_poll_backoff(self, max_poll_backoff: Nanos) -> (storage: Self)
        ensures
            storage@ == (StorageView { max_poll_backoff, ..self@ }),
    {
        let mut storage = self;
        proof {
            use_type_invariant(&storage);
        }
        storage.max_poll_backoff = max_poll_backoff;
        storage
    }

    /// The ceiling for the polling fetcher's idle backoff.
    pub fn max_poll_backoff(&self) -> (max_poll_backoff: Nanos)
        ensures
            max_poll_backoff == self@.max_poll_backoff,
    {
        self.max_poll_backoff
    }

    /// The same storage, with another codec for the arguments.
    pub fn with_codec<NewCodec>(self) -> (storage: PostgresStorage<
        Args,
        Pool,
        Compact,
        NewCodec,
        Fetcher,
    >)
        ensures
            storage@ == self@,
    {
        PostgresStorage::assemble(self.pool, self.config, self.max_poll_backoff, self.fetcher)
    }

    /// What goes on beside the fetching of tasks while `worker` runs. Orphaned tasks are put
    /// back as often as the worker gives signs of life.
    pub fn heartbeat(&self, worker: &String) -> (heartbeat: Heartbeat<Pool>)
        ensures
            heartbeat.keep_alive == (KeepAlive {
                pool: self@.pool,
                config: self@.config,
                worker: *worker,
            }),
            heartbeat.reenqueue == (Reenqueue {
                pool: self@.pool,
                config: self@.config,
                interval: self@.config.keep_alive,
            }),
    {
        Heartbeat {
            keep_alive: KeepAlive {
                pool: self.pool.clone(),
                config: self.config.clone(),
                worker: worker.clone(),
            },
            reenqueue: Reenqueue {
                pool: self.pool.clone(),
                config: self.config.clone(),
                interval: self.config.keep_alive,
            },
        }
    }

    /// The layers through which a worker runs the storage's tasks, the inner one first.
    pub fn middleware(&self) -> (layers: (LockTaskLayer<Pool>, PgAck<Pool>))
        ensures
            layers.0.pool == self@.pool,
            layers.1.pool == self@.pool,
    {
        (LockTaskLayer::new(self.pool.clone()), PgAck::new(self.pool.clone()))
    }

    /// The name of the storage's queue.
    pub fn get_queue(&self) -> (queue: String)
        ensures
            queue == self@.config.queue,
    {
        self.config.queue.clone()
    }

    /// The registration of `worker` with a storage of this type.
    pub(crate) fn registration(&self, worker: &String, storage_type: &str) -> (register:
        Registration<Pool>)
        ensures
            register.pool == self@.pool,
            register.config == self@.config,
            register.worker == *worker,
            register.storage_type@ == storage_type@,
    {
        Registration {
            pool: self.pool.clone(),
            config: self.config.clone(),
            worker: worker.clone(),
            storage_type: storage_type.to_owned(),
        }
    }

    /// The fetcher that polls the storage's queue for `worker`.
    pub(crate) fn poll_fetcher(&self, worker: &String) -> (fetcher: PgPollFetcher<
        Pool,
        CompactType,
    >)
        ensures
            self@.is_polled_by(fetcher, *worker),
    {
        PgPollFetcher::new(&self.pool, &self.config, worker, self.max_poll_backoff)
    }

    /// The fetcher of a storage that is done with.
    pub(crate) fn into_fetcher(self) -> (fetcher: Fetcher)
        ensures
            fetcher == self@.fetcher,
    {
        self.fetcher
    }
}

impl<Pool, Fetcher> StorageView<Pool, Fetcher> {
    /// Whether a fetcher polls this storage's queue for `worker`, within its ceiling and from
    /// the first delay on.
    pub open spec fn is_polled_by(
        self,
        fetcher: PgPollFetcher<Pool, CompactType>,
        worker: String,
    ) -> bool {
        &&& fetcher.pool == self.pool
        &&& fetcher.config == self.config
        &&& fetcher.worker == worker
        &&& fetcher.max_poll_backoff == self.max_poll_backoff
        &&& fetcher.delay == FIRST_POLL_DELAY
    }

    /// Whether a stream of this storage's tasks for `worker` starts with the worker's
    /// registration under the name `storage_type`, and then polls.
    pub open spec fn is_streamed_by<Lazy>(
        self,
        plan: PollPlan<Pool, Lazy>,
        worker: String,
        storage_type: Seq<char>,
    ) -> bool {
        &&& plan.register.pool == self.pool
        &&& plan.register.config == self.config
        &&& plan.register.worker == worker
        &&& plan.register.storage_type@ == storage_type
        &&& self.is_polled_by(plan.eager, worker)
    }

    /// Whether tasks are fetched from this storage for `worker` as their identifiers come, in
    /// batches of the size that the configuration gives.
    pub open spec fn is_fetched_by<Source>(
        self,
        lazy: LazyFetch<Pool, Source>,
        worker: String,
    ) -> bool {
        &&& lazy.pool == self.pool
        &&& lazy.worker_id == worker
        &&& lazy.buffer_size == self.config.buffer_size
    }
}

impl<Args, Pool, Decode> PostgresStorage<
    Args,
    Pool,
    CompactType,
    Decode,
    PgFetcher<CompactType, Decode>,
> {
    /// The stream of tasks of a storage that polls.
    pub fn poll_basic(&self, worker: &String) -> (plan: PollPlan<Pool, ()>)
        ensures
            self@.is_streamed_by(plan, *worker, "PostgresStorage"@),
    {
        PollPlan {
            register: self.registration(worker, "PostgresStorage"),
            lazy: (),
            eager: self.poll_fetcher(worker),
        }
    }
}

impl<Args, Pool, Decode> PostgresStorage<Args, Pool, CompactType, Decode, PgNotify> {
    /// The stream of tasks of a storage that polls and is told of inserted tasks. Batches
    /// hold at least one task, so the buffer must have room for one.
    pub fn poll_with_notify(&self, worker: &String) -> (plan: PollPlan<
        Pool,
        LazyFetch<Pool, Listener>,
    >)
        requires
            self@.config.buffer_size > 0,
        ensures
            self@.is_streamed_by(plan, *worker, "PostgresStorageWithNotify"@),
            self@.is_fetched_by(plan.lazy, *worker),
            plan.lazy.source.channel@ == crate::notify::INSERT_CHANNEL@,
            plan.lazy.source.namespace == self@.config.queue,
    {
        PollPlan {
            register: self.registration(worker, "PostgresStorageWithNotify"),
            lazy: LazyFetch {
                source: Listener::new(&self.config.queue),
                pool: self.pool.clone(),
                worker_id: worker.clone(),
                buffer_size: self.config.buffer_size,
            },
            eager: self.poll_fetcher(worker),
        }
    }
}

/// The ceiling of a storage bounds how long a task can wait in its idle queue: whatever the
/// polls of its stream have returned, the last of them nothing, the next one comes after at
/// most the ceiling.
pub proof fn idle_pickup_is_bounded_by_ceiling<Pool, Fetcher, Lazy>(
    storage: StorageView<Pool, Fetcher>,
    plan: PollPlan<Pool, Lazy>,
    worker: String,
    storage_type: Seq<char>,
    polls: Seq<nat>,
)
    requires
        storage.is_streamed_by(plan, worker, storage_type),
        polls.len() > 0,
        polls.last() == 0,
    ensures
        delay_after(polls, plan.eager.max_poll_backoff as nat) <= storage.max_poll_backoff,
{
    delay_keeps_to_ceiling(polls, storage.max_poll_backoff as nat);
}

/// A storage's stream queries for every identifier that comes from its source: the texts of all
/// its queries, taken together, are the identifiers' texts, in their order and with none lost,
/// added or left out for being there twice. Each query is on behalf of the worker and asks for
/// at least one task and at most as many as the buffer has room for.
pub proof fn stream_queries_for_every_id<Pool, Fetcher, Source>(
    storage: StorageView<Pool, Fetcher>,
    lazy: LazyFetch<Pool, Source>,
    worker: String,
    ids: Seq<PgTaskId>,
    batches: Seq<Seq<PgTaskId>>,
    queries: Seq<QueueById>,
)
    requires
        storage.is_fetched_by(lazy, worker),
        are_batches(ids, batches, storage.config.buffer_size),
        lazy.is_queried_by(batches, queries),
    ensures
        all_query_texts(queries) == id_texts(ids),
        forall|i: int|
            0 <= i < queries.len() ==> 1 <= (#[trigger] queries[i]).ids@.len()
                <= storage.config.buffer_size && queries[i].worker_id == worker,
{
    queries_ask_for_every_id_in_order(lazy, ids, batches, queries);
}

/// A storage that is told of inserted tasks queries for exactly those of its own queue, in the
/// order of the notifications and as often as they came; all other notifications are dropped.
pub proof fn announcements_of_the_queue_are_queried<Pool>(
    storage: StorageView<Pool, PgNotify>,
    lazy: LazyFetch<Pool, Listener>,
    worker: String,
    events: Seq<Option<InsertEvent>>,
    batches: Seq<Seq<PgTaskId>>,
    queries: Seq<QueueById>,
)
    requires
        storage.is_fetched_by(lazy, worker),
        lazy.source.namespace == storage.config.queue,
        are_batches(lazy.source.accepted_ids(events), batches, storage.config.buffer_size),
        lazy.is_queried_by(batches, queries),
    ensures
        all_query_texts(queries) == id_texts(ids_for(events, storage.config.queue@)),
        forall|i: int|
            0 <= i < queries.len() ==> 1 <= (#[trigger] queries[i]).ids@.len()
                <= storage.config.buffer_size && queries[i].worker_id == worker,
{
    listener_accepts_exactly_its_queue(lazy.source, events);
    stream_queries_for_every_id(
        storage,
        lazy,
        worker,
        lazy.source.accepted_ids(events),
        batches,
        queries,
    );
}

/// The stream of a storage polls with the ceiling that was set on the storage itself, whatever it
/// is: after `idle` empty polls its delay is one second where there were none, and else the lesser
/// of `2^idle` seconds and that ceiling.
pub proof fn stream_polls_with_the_ceiling_set<Pool, Fetcher, Lazy>(
    storage: StorageView<Pool, Fetcher>,
    ceiling: Nanos,
    plan: PollPlan<Pool, Lazy>,
    worker: String,
    storage_type: Seq<char>,
    idle: nat,
)
    requires
        (StorageView { max_poll_backoff: ceiling, ..storage }).is_streamed_by(
            plan,
            worker,
            storage_type,
        ),
    ensures
        plan.eager.max_poll_backoff == ceiling,
        plan.eager.delay == 1_000_000_000,
        ({
            let delay = idle_delay(idle, plan.eager.max_poll_backoff as nat);
            &&& idle == 0 ==> delay == 1_000_000_000
            &&& idle > 0 && pow2(idle) * 1_000_000_000 <= ceiling ==> delay == pow2(idle)
                * 1_000_000_000
            &&& idle > 0 && pow2(idle) * 1_000_000_000 > ceiling ==> delay == ceiling
        }),
{
    idle_delay_is_bounded_by_the_ceiling_alone(idle, ceiling as nat);
}

/// The stream of a storage is for the storage's own pool and queue and for the worker that asked
/// for it, in its registration as in its polling.
pub proof fn stream_is_for_the_storage<Pool, Fetcher, Lazy>(
    storage: StorageView<Pool, Fetcher>,
    plan: PollPlan<Pool, Lazy>,
    worker: String,
    storage_type: Seq<char>,
)
    requires
        storage.is_streamed_by(plan, worker, storage_type),
    ensures
        plan.register.pool == storage.pool && plan.eager.pool == storage.pool,
        plan.register.config == storage.config && plan.eager.config == storage.config,
        plan.register.worker == worker && plan.eager.worker == worker,
        plan.register.storage_type@ == storage_type,
{
}

/// Announced tasks are fetched from the storage's own pool, for the worker that asked, and as many
/// at once as the storage's buffer has room for.
pub proof fn fetching_is_for_the_storage<Pool, Fetcher, Source>(
    storage: StorageView<Pool, Fetcher>,
    lazy: LazyFetch<Pool, Source>,
    worker: String,
)
    requires
        storage.is_fetched_by(lazy, worker),
    ensures
        lazy.pool == storage.pool,
        lazy.worker_id == worker,
        lazy.buffer_size == storage.config.buffer_size,
{
}

/// A storage whose ceiling was not set polls with one of five minutes.
pub proof fn ceiling_is_five_minutes_by_default()
    ensures
        DEFAULT_MAX_POLL_BACKOFF == 300_000_000_000,
{
}

} // verus!
