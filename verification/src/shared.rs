//! One listener for the storages of many queues.
//!
//! A [`SharedPostgresStorage`] hands out storages that do not listen to the database
//! themselves. One driver listens for all of them and sends each event's identifier through
//! the channel that the [`Registry`] has for the event's queue.
use vstd::prelude::*;

use core::marker::PhantomData;
use std::ops::Deref;
use std::sync::Arc;

use apalis_codec::json::JsonCodec;
use futures::channel::mpsc::{Receiver, Sender};
use futures::lock::{Mutex, MutexGuard};

use crate::config::Config;
use crate::fetcher::DEFAULT_MAX_POLL_BACKOFF;
use crate::notify::{ids_for, InsertEvent, Listener};
use crate::plan::{LazyFetch, PollPlan, QueueById};
use crate::registry::{
    after_entries, deliveries, delivery_of, queue_gets_exactly_its_own, route_of, sent_to,
    unentered_queue_stays_out, Registry,
};
use crate::registry_lock::RegistryLock;
use crate::storage::{PgNotify, PostgresStorage, StorageView};
use crate::task::CompactType;
use crate::task_id::PgTaskId;

verus! {

/// The sending end of a bounded channel of `futures`.
#[verifier::external_type_specification]
#[verifier::external_body]
#[verifier::reject_recursive_types(T)]
pub struct ExSender<T>(futures::channel::mpsc::Sender<T>);

/// The receiving end of a bounded channel of `futures`.
#[verifier::external_type_specification]
#[verifier::external_body]
#[verifier::reject_recursive_types(T)]
pub struct ExReceiver<T>(futures::channel::mpsc::Receiver<T>);

/// The lock of `futures`.
#[verifier::external_type_specification]
#[verifier::external_body]
#[verifier::reject_recursive_types(T)]
pub struct ExMutex<T: ?Sized>(futures::lock::Mutex<T>);

/// A held lock of `futures`.
#[verifier::external_type_specification]
#[verifier::external_body]
#[verifier::reject_recursive_types(T)]
pub struct ExMutexGuard<'a, T: ?Sized>(futures::lock::MutexGuard<'a, T>);

/// Whether what is sent at one end arrives at the other, as `is_connected_to` of `futures`'
/// `Sender` tells.
pub uninterp spec fn is_connected_to(
    sender: Sender<PgTaskId>,
    receiver: Receiver<PgTaskId>,
) -> bool;

/// Whether what is sent at one end arrives at the other, and nowhere else.
pub open spec fn is_channel(sender: Sender<PgTaskId>, receiver: Receiver<PgTaskId>) -> bool {
    &&& is_connected_to(sender, receiver)
    &&& forall|other: Receiver<PgTaskId>| #[trigger]
        is_connected_to(sender, other) ==> other == receiver
}

/// The buffer that a receiving end's channel was made with. The channel holds as many
/// identifiers, and one more for each of its sending ends.
pub uninterp spec fn channel_buffer(receiver: Receiver<PgTaskId>) -> usize;

/// Largest buffer that a channel can have, and one more.
pub open spec fn channel_buffer_limit() -> int {
    usize::MAX as int / 4
}

/// Calls `channel` of `futures`' `mpsc`, which makes the two ends of a channel with the given
/// buffer. The receiving end is the only one that the channel has: there is no way to make
/// another. Nothing that there is already leads to it, so the channels of the registry that is
/// at hand, where one is, do not. It panics on a buffer of a quarter of the largest `usize`, or more.
#[verifier::external_body]
fn mpsc_channel(buffer: usize, at_hand: &Option<&mut Registry<Sender<PgTaskId>>>) -> (ends: (
    Sender<PgTaskId>,
    Receiver<PgTaskId>,
))
    requires
        buffer < channel_buffer_limit(),
    ensures
        is_connected_to(ends.0, ends.1),
        forall|other: Receiver<PgTaskId>| #[trigger]
            is_connected_to(ends.0, other) ==> other == ends.1,
        channel_buffer(ends.1) == buffer,
        *at_hand matches Some(r) ==> forall|queue: Seq<char>|
            r@.contains_key(queue) ==> !is_connected_to(#[trigger] r@[queue], ends.1),
{
    futures::channel::mpsc::channel(buffer)
}

/// The receiving end that a lock was made with.
pub uninterp spec fn locked_receiver(lock: Mutex<Receiver<PgTaskId>>) -> Receiver<PgTaskId>;

/// Calls `new` of `futures`' `Mutex`, which makes a lock that guards the receiving end.
#[verifier::external_body]
fn lock_receiver(receiver: Receiver<PgTaskId>) -> (lock: Mutex<Receiver<PgTaskId>>)
    ensures
        locked_receiver(lock) == receiver,
{
    Mutex::new(receiver)
}

/// The registry that a lock was made with.
pub uninterp spec fn locked_registry(lock: Mutex<Registry<Sender<PgTaskId>>>) -> Registry<
    Sender<PgTaskId>,
>;

/// Calls `new` of `futures`' `Mutex`, which makes a lock that guards the registry.
#[verifier::external_body]
fn lock_registry(registry: Registry<Sender<PgTaskId>>) -> (lock: Mutex<Registry<Sender<PgTaskId>>>)
    ensures
        locked_registry(lock) == registry,
{
    Mutex::new(registry)
}

/// The lock that a guard holds, and how often the lock had been tried for the store before the
/// try that gave the guard. It is told of a guard that nothing was accessed through yet.
pub uninterp spec fn lock_of(guard: MutexGuard<'_, Registry<Sender<PgTaskId>>>) -> Option<
    (Mutex<Registry<Sender<PgTaskId>>>, nat),
>;

/// Whether a lock was held by someone else than the store when it was tried for the store after
/// `tries` other times.
pub uninterp spec fn held_at_some_time(
    lock: Mutex<Registry<Sender<PgTaskId>>>,
    tries: nat,
) -> bool;

/// Whether an access to what a lock guards finds the channels `before` and leaves the channels
/// `after`. `tries` tells of an access for the store how often the lock had been tried for it
/// before; it is `None` for the accesses of others, at some time.
pub uninterp spec fn accessed(
    lock: Mutex<Registry<Sender<PgTaskId>>>,
    tries: Option<nat>,
    before: Map<Seq<char>, Sender<PgTaskId>>,
    after: Map<Seq<char>, Sender<PgTaskId>>,
) -> bool;

/// Calls `try_lock` of `futures`' `Mutex`, which gives a guard of that lock, or nothing where the
/// lock is held. It is not held for the store itself: a guard that the store got before has the
/// store's hold on the lock for as long as it lives. Whether another holds it, and what it
/// guards, is up to its other holders: nothing is said of it.
#[verifier::external_body]
fn try_lock<'a>(registry: &'a mut RegistryLock) -> (guard: Option<
    MutexGuard<'a, Registry<Sender<PgTaskId>>>,
>)
    ensures
        guard matches Some(g) ==> lock_of(g) == Some((old(registry).lock(), old(registry).tries())),
        guard is None ==> held_at_some_time(old(registry).lock(), old(registry).tries()),
        final(registry).handle() == old(registry).handle(),
        final(registry).tries() == old(registry).tries() + 1,
{
    registry.try_lock()
}

/// Calls `as_deref_mut` of `Option` on a guard of `futures`' `Mutex`, which gives access to the
/// registry that the held lock guards, and nothing where there is no guard. The registry is as
/// the last access to the lock left it, and the next one finds it as it is left here; which these
/// are is not said. A guard is used for one access.
#[verifier::external_body]
fn guarded<'a, 'b>(guard: &'b mut Option<MutexGuard<'a, Registry<Sender<PgTaskId>>>>) -> (registry:
    Option<&'b mut Registry<Sender<PgTaskId>>>)
    requires
        *old(guard) matches Some(g) ==> lock_of(g) is Some,
    ensures
        registry is Some <==> *old(guard) is Some,
        registry matches Some(r) ==> {
            let (lock, tries) = lock_of((*old(guard))->0)->0;
            accessed(lock, Some(tries), r@, final(r)@)
        },
{
    guard.as_deref_mut()
}

/// Why no storage was handed out for a queue.
#[derive(Debug)]
pub enum SharedPostgresError {
    /// The queue was handed out before.
    NamespaceExists(String),
    /// The registry is in use.
    RegistryLocked,
}

impl SharedPostgresError {
    /// The error as a text.
    pub fn message(&self) -> (text: String)
        ensures
            text@ == (match self {
                SharedPostgresError::NamespaceExists(queue) => "namespace already exists: "@
                    + queue@,
                SharedPostgresError::RegistryLocked => "registry locked"@,
            }),
    {
        match self {
            SharedPostgresError::NamespaceExists(queue) => {
                "namespace already exists: ".to_owned().concat(queue.as_str())
            },
            SharedPostgresError::RegistryLocked => "registry locked".to_owned(),
        }
    }
}

/// Whether a source of identifiers has one.
#[derive(Debug)]
pub enum Polled<T> {
    /// It has one, or has come to its end.
    Ready(Option<T>),
    /// It may have one later.
    Pending,
}

/// Fetches the identifiers that the driver sends to one queue. Whoever waits for one keeps the
/// driver running.
pub struct SharedFetcher<Drive> {
    /// The driver.
    pub poller: Drive,
    /// Where its identifiers arrive.
    pub receiver: Arc<Mutex<Receiver<PgTaskId>>>,
}

impl<Drive: Clone> Clone for SharedFetcher<Drive> {
    fn clone(&self) -> (fetcher: Self)
        ensures
            cloned(self.poller, fetcher.poller),
            fetcher.receiver == self.receiver,
    {
        SharedFetcher { poller: self.poller.clone(), receiver: self.receiver.clone() }
    }
}

/// What a fetcher has, when asking its receiver gave `received`.
pub open spec fn handed_on(received: Option<Polled<PgTaskId>>) -> Polled<PgTaskId> {
    match received {
        Some(polled) => polled,
        None => Polled::Pending,
    }
}

/// The identifiers among what a sequence of calls gave, in the order of the calls.
pub open spec fn yielded_ids(calls: Seq<Polled<PgTaskId>>) -> Seq<PgTaskId> {
    calls.filter_map(
        |call: Polled<PgTaskId>|
            match call {
                Polled::Ready(id) => id,
                Polled::Pending => None,
            },
    )
}

/// The identifiers that a receiver gave in a sequence of calls; it gave nothing in those in which
/// it was in use.
pub open spec fn received_ids(calls: Seq<Option<Polled<PgTaskId>>>) -> Seq<PgTaskId> {
    calls.filter_map(
        |call: Option<Polled<PgTaskId>>|
            match call {
                Some(Polled::Ready(id)) => id,
                _ => None,
            },
    )
}

impl<Drive> SharedFetcher<Drive> {
    /// What the fetcher has, when asking its receiver gave `received`: `None` where the receiver
    /// is in use, in which case there is nothing yet.
    pub fn poll_next(received: Option<Polled<PgTaskId>>) -> (polled: Polled<PgTaskId>)
        ensures
            polled == handed_on(received),
    {
        match received {
            Some(p) => p,
            None => Polled::Pending,
        }
    }
}

/// The calls on clones of a fetcher draw from one receiver, and yield, taken together and in the
/// order of the calls, exactly what it gave: nothing is lost, added or given twice. So where the
/// receiver gives what was sent, in order, the clones yield a prefix of it.
pub proof fn clones_draw_from_one_receiver<Drive>(
    clones: Seq<SharedFetcher<Drive>>,
    received: Seq<Option<Polled<PgTaskId>>>,
    polled: Seq<Polled<PgTaskId>>,
    sent: Seq<PgTaskId>,
)
    requires
        clones.len() == polled.len(),
        forall|i: int, j: int|
            0 <= i < j < clones.len() ==> (#[trigger] clones[i]).receiver == (
            #[trigger] clones[j]).receiver,
        received.len() == polled.len(),
        forall|i: int| 0 <= i < polled.len() ==> (#[trigger] polled[i]) == handed_on(received[i]),
    ensures
        yielded_ids(polled) == received_ids(received),
        received_ids(received).is_prefix_of(sent) ==> yielded_ids(polled).is_prefix_of(sent),
    decreases polled.len(),
{
    if polled.len() > 0 {
        let (fewer_received, fewer_polled) = (received.drop_last(), polled.drop_last());
        assert(forall|i: int|
            0 <= i < fewer_polled.len() ==> (#[trigger] fewer_polled[i]) == polled[i]
                && fewer_received[i] == received[i]);
        clones_draw_from_one_receiver(clones.drop_last(), fewer_received, fewer_polled, sent);
        assert(polled.last() == handed_on(received.last()));
    }
    assert(yielded_ids(polled) =~= received_ids(received));
}

/// Whether `registered` is the answer to a queue's request, when the registry held `channels`
/// before it: `None` where it was in use.
pub open spec fn is_answer<C>(
    channels: Option<Map<Seq<char>, C>>,
    queue: Seq<char>,
    registered: Result<(), SharedPostgresError>,
) -> bool {
    match channels {
        None => registered matches Err(SharedPostgresError::RegistryLocked),
        Some(channels) => if channels.contains_key(queue) {
            registered matches Err(SharedPostgresError::NamespaceExists(name)) && name@ == queue
        } else {
            registered is Ok
        },
    }
}

/// Enters a queue with its channel into the registry, or says why not. `registry` is `None`
/// where it is in use. Where the queue is there already the error comes too late: its channel
/// is replaced nevertheless.
pub fn register<C>(registry: Option<&mut Registry<C>>, queue: &String, channel: C) -> (registered:
    Result<(), SharedPostgresError>)
    ensures
        registry is None ==> is_answer(None::<Map<Seq<char>, C>>, queue@, registered),
        registry matches Some(r) ==> {
            &&& is_answer(Some(r@), queue@, registered)
            &&& final(r)@ == r@.insert(queue@, channel)
        },
{
    match registry {
        None => Err(SharedPostgresError::RegistryLocked),
        Some(registry) => {
            if registry.insert(queue.clone(), channel).is_some() {
                Err(SharedPostgresError::NamespaceExists(queue.clone()))
            } else {
                Ok(())
            }
        },
    }
}

/// Requests for other queues do not stand in a queue's way: it is granted its request as long
/// as it was not entered itself.
pub proof fn other_queues_do_not_refuse<C>(
    channels: Map<Seq<char>, C>,
    queue: Seq<char>,
    entries: Seq<(Seq<char>, C)>,
    answer: Result<(), SharedPostgresError>,
)
    requires
        !channels.contains_key(queue),
        forall|i: int| 0 <= i < entries.len() ==> (#[trigger] entries[i]).0 != queue,
        is_answer(Some(after_entries(channels, entries)), queue, answer),
    ensures
        answer is Ok,
{
    unentered_queue_stays_out(channels, entries, queue);
}

/// Whether a registry sends the events of `queue` to where `fetcher` gets its identifiers.
pub open spec fn feeds<Drive>(
    channels: Map<Seq<char>, Sender<PgTaskId>>,
    queue: Seq<char>,
    fetcher: SharedFetcher<Drive>,
) -> bool {
    &&& channels.contains_key(queue)
    &&& is_connected_to(channels[queue], locked_receiver(*fetcher.receiver))
}

/// Whether a fetcher gets its identifiers through a channel with the given buffer.
pub open spec fn is_buffered<Drive>(fetcher: SharedFetcher<Drive>, buffer: usize) -> bool {
    channel_buffer(locked_receiver(*fetcher.receiver)) == buffer
}

/// Clones of a fetcher are fed by the same registries.
pub proof fn clones_are_fed_alike<Drive>(
    fetcher: SharedFetcher<Drive>,
    clone: SharedFetcher<Drive>,
    channels: Map<Seq<char>, Sender<PgTaskId>>,
    queue: Seq<char>,
)
    requires
        clone.receiver == fetcher.receiver,
    ensures
        feeds(channels, queue, clone) == feeds(channels, queue, fetcher),
{
}

/// An answer, without what was handed out.
pub open spec fn outcome_of<T>(answer: Result<T, SharedPostgresError>) -> Result<
    (),
    SharedPostgresError,
> {
    match answer {
        Ok(_) => Ok(()),
        Err(e) => Err(e),
    }
}

/// Whether registries differ in at most the channel of one queue, which the later one has.
pub open spec fn sets_a_channel<C>(before: Map<Seq<char>, C>, after: Map<Seq<char>, C>) -> bool {
    exists|queue: Seq<char>, channel: C| after == #[trigger] before.insert(queue, channel)
}

/// Hands out storages that share one listener.
pub struct SharedPostgresStorage<
    Pool,
    Drive,
    Compact = CompactType,
    Codec = JsonCodec<CompactType>,
> {
    pub pool: Arc<Pool>,
    /// The queues that were handed out.
    pub registry: RegistryLock,
    /// A handle of the driver.
    pub drive: Drive,
    pub _marker: PhantomData<(Compact, Codec)>,
}

/// A storage on `pool` for the queue of `config`, with a handle of the driver, whose identifiers
/// come through `channel`, when the registry's lock gave `registry`: `None` where it is in use.
fn storage_through<Args, Pool, Drive: Clone, Compact, Codec>(
    pool: &Arc<Pool>,
    drive: &Drive,
    registry: Option<&mut Registry<Sender<PgTaskId>>>,
    config: Config,
    channel: (Sender<PgTaskId>, Receiver<PgTaskId>),
) -> (storage: Result<
    PostgresStorage<Args, Pool, Compact, Codec, SharedFetcher<Drive>>,
    SharedPostgresError,
>)
    ensures
        registry is None ==> is_answer(
            None::<Map<Seq<char>, Sender<PgTaskId>>>,
            config.queue@,
            outcome_of(storage),
        ),
        registry matches Some(r) ==> {
            &&& is_answer(Some(r@), config.queue@, outcome_of(storage))
            &&& final(r)@ == r@.insert(config.queue@, channel.0)
        },
        storage matches Ok(s) ==> {
            &&& registry is Some
            &&& s@.pool == *pool
            &&& s@.config == config
            &&& s@.max_poll_backoff == DEFAULT_MAX_POLL_BACKOFF
            &&& cloned(*drive, s@.fetcher.poller)
            &&& locked_receiver(*s@.fetcher.receiver) == channel.1
        },
{
    match register(registry, &config.queue, channel.0) {
        Err(e) => Err(e),
        Ok(()) => {
            let receiver = Arc::new(lock_receiver(channel.1));
            let fetcher = SharedFetcher { poller: drive.clone(), receiver };
            Ok(PostgresStorage::assemble(pool.clone(), config, DEFAULT_MAX_POLL_BACKOFF, fetcher))
        },
    }
}

impl<Pool, Drive> SharedPostgresStorage<Pool, Drive> {
    /// Shares the listener of the driver that `drive` makes for the pool and the registry, in
    /// which there are no queues yet.
    pub fn new<F: FnOnce(Arc<Pool>, Arc<Mutex<Registry<Sender<PgTaskId>>>>) -> Drive>(
        pool: Arc<Pool>,
        drive: F,
    ) -> (shared: Self)
        requires
            forall|registry: Arc<Mutex<Registry<Sender<PgTaskId>>>>|
                #[trigger] drive.requires((pool, registry)),
        ensures
            shared.pool == pool,
            locked_registry(shared.registry.lock())@ == Map::<Seq<char>, Sender<PgTaskId>>::empty(),
            drive.ensures((pool, shared.registry.handle()), shared.drive),
    {
        let registry = RegistryLock::new(lock_registry(Registry::new()));
        let drive = drive(pool.clone(), registry.deref().clone());
        SharedPostgresStorage { pool, registry, drive, _marker: PhantomData }
    }
}

impl<Pool, Drive: Clone, Compact, Codec> SharedPostgresStorage<Pool, Drive, Compact, Codec> {
    /// Whether `storage` is one that is handed out for the queue of `config`: it has the pool,
    /// the default ceiling, and a handle of the driver.
    pub open spec fn hands_out<Args>(
        &self,
        config: Config,
        storage: PostgresStorage<Args, Pool, Compact, Codec, SharedFetcher<Drive>>,
    ) -> bool {
        &&& storage@.pool == self.pool
        &&& storage@.config == config
        &&& storage@.max_poll_backoff == DEFAULT_MAX_POLL_BACKOFF
        &&& cloned(self.drive, storage@.fetcher.poller)
    }

    /// Whether the access that the store makes at its next try of its registry's lock finds the
    /// channels `before` and leaves the channels `after`.
    pub open spec fn next_access(
        &self,
        before: Map<Seq<char>, Sender<PgTaskId>>,
        after: Map<Seq<char>, Sender<PgTaskId>>,
    ) -> bool {
        accessed(self.registry.lock(), Some(self.registry.tries()), before, after)
    }

    /// Whether another holds the registry's lock at the store's next try of it.
    pub open spec fn is_busy(&self) -> bool {
        held_at_some_time(self.registry.lock(), self.registry.tries())
    }

    /// Whether the next access to the store's own registry found it without the queue and left it
    /// with the queue and a channel through which `fetcher` gets its identifiers, and else as
    /// it was.
    pub open spec fn entered(&self, queue: Seq<char>, fetcher: SharedFetcher<Drive>) -> bool {
        exists|before: Map<Seq<char>, Sender<PgTaskId>>, sender: Sender<PgTaskId>|
            {
                &&& #[trigger] self.next_access(before, before.insert(queue, sender))
                &&& !before.contains_key(queue)
                &&& feeds(before.insert(queue, sender), queue, fetcher)
            }
    }

    /// Whether the next access to the store's own registry found it with the queue and left it with
    /// another channel in the place of the queue's, and else as it was.
    pub open spec fn replaced(&self, queue: Seq<char>) -> bool {
        exists|
            before: Map<Seq<char>, Sender<PgTaskId>>,
            channel: (Sender<PgTaskId>, Receiver<PgTaskId>),
        |
            {
                &&& #[trigger] self.next_access(before, before.insert(queue, channel.0))
                &&& before.contains_key(queue)
                &&& #[trigger] is_channel(channel.0, channel.1)
                &&& !is_connected_to(before[queue], channel.1)
            }
    }

    /// Whether `history` is what the store's own registry holds, from when it was made on, and
    /// each access to it enters a queue or sets the channel of one.
    pub open spec fn is_history(&self, history: Seq<Map<Seq<char>, Sender<PgTaskId>>>) -> bool {
        &&& history.len() > 0
        &&& history[0] == locked_registry(self.registry.lock())@
        &&& forall|i: int, j: int|
            #![trigger history[i], history[j]]
            0 <= i && j == i + 1 && j < history.len() ==> sets_a_channel(history[i], history[j])
                && exists|tries: Option<nat>|
                accessed(self.registry.lock(), tries, history[i], history[j])
    }

    /// A storage for the queue of `config` whose identifiers come through `channel`, when the
    /// registry's lock gave `registry`: `None` where it is in use.
    pub fn make_shared_through<Args>(
        &self,
        registry: Option<&mut Registry<Sender<PgTaskId>>>,
        config: Config,
        channel: (Sender<PgTaskId>, Receiver<PgTaskId>),
    ) -> (storage: Result<
        PostgresStorage<Args, Pool, Compact, Codec, SharedFetcher<Drive>>,
        SharedPostgresError,
    >)
        ensures
            registry is None ==> is_answer(
                None::<Map<Seq<char>, Sender<PgTaskId>>>,
                config.queue@,
                outcome_of(storage),
            ),
            registry matches Some(r) ==> {
                &&& is_answer(Some(r@), config.queue@, outcome_of(storage))
                &&& final(r)@ == r@.insert(config.queue@, channel.0)
            },
            storage matches Ok(s) ==> {
                &&& self.hands_out(config, s)
                &&& locked_receiver(*s@.fetcher.receiver) == channel.1
                &&& registry matches Some(r) && (is_connected_to(channel.0, channel.1) ==> feeds(
                    final(r)@,
                    config.queue@,
                    s@.fetcher,
                ))
            },
    {
        storage_through(&self.pool, &self.drive, registry, config, channel)
    }

    /// Whether `storage` is the answer to a request of the store's for the queue of `config`.
    pub open spec fn answers<Args>(
        &self,
        config: Config,
        storage: Result<
            PostgresStorage<Args, Pool, Compact, Codec, SharedFetcher<Drive>>,
            SharedPostgresError,
        >,
    ) -> bool {
        match storage {
            Ok(s) => {
                &&& self.hands_out(config, s)
                &&& is_buffered(s@.fetcher, config.buffer_size)
                &&& self.entered(config.queue@, s@.fetcher)
            },
            Err(SharedPostgresError::NamespaceExists(queue)) => {
                &&& queue@ == config.queue@
                &&& self.replaced(config.queue@)
            },
            Err(SharedPostgresError::RegistryLocked) => self.is_busy(),
        }
    }

    /// A storage for the queue of `config`, with a channel of its own that is entered into the
    /// store's registry. Whether the registry is free and whether it has the queue already is up
    /// to its other users, so it is left open here whether there is an error;
    /// [`Self::make_shared_through`] says what is answered for each state of the registry.
    pub fn make_shared_with_config<Args>(&mut self, config: Config) -> (storage: Result<
        PostgresStorage<Args, Pool, Compact, Codec, SharedFetcher<Drive>>,
        SharedPostgresError,
    >)
        requires
            config.buffer_size < channel_buffer_limit(),
        ensures
            final(self).pool == old(self).pool,
            final(self).registry.handle() == old(self).registry.handle(),
            final(self).registry.tries() == old(self).registry.tries() + 1,
            final(self).drive == old(self).drive,
            final(self)._marker == old(self)._marker,
            old(self).answers(config, storage),
    {
        let mut guard = try_lock(&mut self.registry);
        let registry = guarded(&mut guard);
        let channel = mpsc_channel(config.buffer_size, &registry);
        assert(is_channel(channel.0, channel.1));
        let ghost found = registry->0@;
        let ghost left = found.insert(config.queue@, channel.0);
        let ghost free = registry is Some;
        let storage = storage_through(&self.pool, &self.drive, registry, config, channel);
        assert(free ==> old(self).next_access(found, left));
        storage
    }

    /// A storage for the queue that is named after the type of its arguments, with the default
    /// settings.
    pub fn make_shared<Args>(&mut self, args_type: &str) -> (storage: Result<
        PostgresStorage<Args, Pool, Compact, Codec, SharedFetcher<Drive>>,
        SharedPostgresError,
    >)
        ensures
            final(self).pool == old(self).pool,
            final(self).registry.handle() == old(self).registry.handle(),
            final(self).registry.tries() == old(self).registry.tries() + 1,
            final(self).drive == old(self).drive,
            final(self)._marker == old(self)._marker,
            match storage {
                Ok(s) => {
                    &&& old(self).hands_out(s@.config, s)
                    &&& s@.config.queue@ == args_type@
                    &&& s@.config.is_default()
                    &&& is_buffered(s@.fetcher, s@.config.buffer_size)
                    &&& old(self).entered(args_type@, s@.fetcher)
                },
                Err(SharedPostgresError::NamespaceExists(queue)) => {
                    &&& queue@ == args_type@
                    &&& old(self).replaced(args_type@)
                },
                Err(SharedPostgresError::RegistryLocked) => old(self).is_busy(),
            },
    {
        self.make_shared_with_config(Config::new(args_type))
    }
}

/// No queue ever leaves a store: the names in its registry only grow.
pub proof fn names_only_grow<Pool, Drive: Clone, Compact, Codec>(
    store: SharedPostgresStorage<Pool, Drive, Compact, Codec>,
    history: Seq<Map<Seq<char>, Sender<PgTaskId>>>,
    i: int,
    j: int,
)
    requires
        store.is_history(history),
        0 <= i <= j < history.len(),
    ensures
        history[i].dom().subset_of(history[j].dom()),
    decreases j - i,
{
    if i < j {
        names_only_grow(store, history, i, j - 1);
        assert(sets_a_channel(history[j - 1], history[j]));
    }
}

/// A store hands a queue out once: after a request for it, and whatever happened since, to the
/// storage that was handed out or to other queues, every request for it is refused with its name.
pub proof fn queue_is_handed_out_once<Pool, Drive: Clone, Compact, Codec>(
    store: SharedPostgresStorage<Pool, Drive, Compact, Codec>,
    history: Seq<Map<Seq<char>, Sender<PgTaskId>>>,
    first: int,
    second: int,
    queue: Seq<char>,
    channel: Sender<PgTaskId>,
    answer: Result<(), SharedPostgresError>,
)
    requires
        store.is_history(history),
        0 <= first < second < history.len(),
        history[first + 1] == history[first].insert(queue, channel),
        is_answer(Some(history[second]), queue, answer),
    ensures
        answer matches Err(SharedPostgresError::NamespaceExists(name)) && name@ == queue,
{
    names_only_grow(store, history, first + 1, second);
    assert(history[first + 1].dom().contains(queue));
}

/// Whether sending ends lead to the same receiving ends.
pub open spec fn same_ends(a: Sender<PgTaskId>, b: Sender<PgTaskId>) -> bool {
    forall|receiver: Receiver<PgTaskId>| #[trigger]
        is_connected_to(a, receiver) == is_connected_to(b, receiver)
}

/// Whether a change of a registry was no request for the queue: it set the channel of another
/// queue, or it was a delivery to this one, which has used the channel and left it leading to
/// where it led.
pub open spec fn spares(
    before: Map<Seq<char>, Sender<PgTaskId>>,
    after: Map<Seq<char>, Sender<PgTaskId>>,
    queue: Seq<char>,
) -> bool {
    exists|name: Seq<char>, sender: Sender<PgTaskId>|
        {
            &&& after == #[trigger] before.insert(name, sender)
            &&& name == queue ==> before.contains_key(queue) && same_ends(before[queue], sender)
        }
}

/// A storage that gets the events of its queue goes on getting them, whatever is sent to it or
/// to others and whatever other queues are handed out, until the queue is requested again.
pub proof fn storage_keeps_hearing_its_queue<Pool, Drive: Clone, Compact, Codec>(
    store: SharedPostgresStorage<Pool, Drive, Compact, Codec>,
    history: Seq<Map<Seq<char>, Sender<PgTaskId>>>,
    start: int,
    end: int,
    queue: Seq<char>,
    fetcher: SharedFetcher<Drive>,
)
    requires
        store.is_history(history),
        0 <= start <= end < history.len(),
        feeds(history[start], queue, fetcher),
        forall|i: int, j: int|
            #![trigger history[i], history[j]]
            start <= i && j == i + 1 && j <= end ==> spares(history[i], history[j], queue),
    ensures
        forall|i: int| start <= i <= end ==> feeds(#[trigger] history[i], queue, fetcher),
    decreases end - start,
{
    if start < end {
        storage_keeps_hearing_its_queue(store, history, start, end - 1, queue, fetcher);
        assert(feeds(history[end - 1], queue, fetcher));
        assert(spares(history[end - 1], history[end], queue));
    }
}

/// A refused request cuts off the storage that the queue was handed out to: whoever was fed by
/// the store's registry when the request came is not fed by it any more when it is answered.
pub proof fn refused_request_cuts_off_the_storage<Pool, Drive: Clone, Compact, Codec>(
    store: SharedPostgresStorage<Pool, Drive, Compact, Codec>,
    queue: Seq<char>,
)
    requires
        store.replaced(queue),
    ensures
        exists|
            before: Map<Seq<char>, Sender<PgTaskId>>,
            after: Map<Seq<char>, Sender<PgTaskId>>,
        |
            {
                &&& #[trigger] store.next_access(before, after)
                &&& before.contains_key(queue) && after.contains_key(queue)
                &&& forall|fetcher: SharedFetcher<Drive>| #[trigger]
                    feeds(before, queue, fetcher) ==> !feeds(after, queue, fetcher)
                &&& forall|other: Seq<char>, fetcher: SharedFetcher<Drive>|
                    other != queue ==> #[trigger] feeds(before, other, fetcher) == feeds(
                        after,
                        other,
                        fetcher,
                    )
            },
{
    let (before, channel) = choose|
        before: Map<Seq<char>, Sender<PgTaskId>>,
        channel: (Sender<PgTaskId>, Receiver<PgTaskId>),
    |
        {
            &&& #[trigger] store.next_access(before, before.insert(queue, channel.0))
            &&& before.contains_key(queue)
            &&& #[trigger] is_channel(channel.0, channel.1)
            &&& !is_connected_to(before[queue], channel.1)
        };
    assert(store.next_access(before, before.insert(queue, channel.0)));
}

/// The first request for a queue is granted: a store that was made without queues has it only
/// after it was entered.
pub proof fn first_request_is_granted<Pool, Drive: Clone, Compact, Codec>(
    store: SharedPostgresStorage<Pool, Drive, Compact, Codec>,
    history: Seq<Map<Seq<char>, Sender<PgTaskId>>>,
    request: int,
    queue: Seq<char>,
    answer: Result<(), SharedPostgresError>,
)
    requires
        locked_registry(store.registry.lock())@ == Map::<Seq<char>, Sender<PgTaskId>>::empty(),
        store.is_history(history),
        0 <= request < history.len(),
        forall|i: int, j: int|
            #![trigger history[i], history[j]]
            0 <= i && j == i + 1 && j <= request && history[j].contains_key(queue)
                ==> history[i].contains_key(queue),
        is_answer(Some(history[request]), queue, answer),
    ensures
        answer is Ok,
    decreases request,
{
    if request > 0 {
        if history[request].contains_key(queue) {
            assert(history[request - 1].contains_key(queue));
            first_request_is_granted(store, history, request - 1, queue, answer);
        }
    }
}

/// A queue that a store has handed out is sent exactly its own identifiers out of all the
/// notifications since, in their order and each as often as it was announced, whatever else is
/// entered meanwhile; and no event that was routed finds its queue without a channel. The `i`th
/// notification is routed by what the registry holds at `routed_at[i]` and dispatched at
/// `sent_at[i]`.
pub proof fn store_sends_a_queue_its_own<Pool, Drive: Clone, Compact, Codec>(
    store: SharedPostgresStorage<Pool, Drive, Compact, Codec>,
    history: Seq<Map<Seq<char>, Sender<PgTaskId>>>,
    events: Seq<Option<InsertEvent>>,
    routed_at: Seq<int>,
    sent_at: Seq<int>,
    start: int,
    queue: Seq<char>,
)
    requires
        store.is_history(history),
        0 <= start < history.len(),
        history[start].contains_key(queue),
        routed_at.len() == events.len(),
        sent_at.len() == events.len(),
        forall|i: int|
            0 <= i < events.len() ==> start <= #[trigger] routed_at[i] <= sent_at[i]
                < history.len(),
    ensures
        ({
            let routing = routed_at.map_values(|at: int| history[at]);
            let sending = sent_at.map_values(|at: int| history[at]);
            &&& sent_to(deliveries(routing, sending, events), queue) == ids_for(events, queue)
            &&& forall|i: int|
                0 <= i < events.len() ==> (route_of(#[trigger] routing[i], events[i]) matches Some(
                    ev,
                ) ==> delivery_of(sending[i], ev) is Some)
        }),
{
    let routing = routed_at.map_values(|at: int| history[at]);
    let sending = sent_at.map_values(|at: int| history[at]);
    assert forall|i: int| 0 <= i < events.len() implies (
    #[trigger] routing[i]).dom().subset_of(sending[i].dom()) && routing[i].contains_key(queue) by {
        assert(start <= routed_at[i] <= sent_at[i] < history.len());
        names_only_grow(store, history, start, routed_at[i]);
        names_only_grow(store, history, routed_at[i], sent_at[i]);
        assert(history[start].dom().contains(queue));
    }
    queue_gets_exactly_its_own(routing, sending, events, queue);
}

/// The storages that a store hands out share its driver, as far as clones of the driver's handle
/// stand for one driver.
pub proof fn storages_share_the_driver<Args, OtherArgs, Pool, Drive: Clone, Compact, Codec>(
    store: SharedPostgresStorage<Pool, Drive, Compact, Codec>,
    storage: PostgresStorage<Args, Pool, Compact, Codec, SharedFetcher<Drive>>,
    other: PostgresStorage<OtherArgs, Pool, Compact, Codec, SharedFetcher<Drive>>,
)
    requires
        forall|handle: Drive| #[trigger] cloned(store.drive, handle) ==> handle == store.drive,
        store.hands_out(storage@.config, storage),
        store.hands_out(other@.config, other),
    ensures
        storage@.fetcher.poller == store.drive,
        other@.fetcher.poller == store.drive,
{
}

impl<Args, Pool, Decode, Drive> PostgresStorage<
    Args,
    Pool,
    CompactType,
    Decode,
    SharedFetcher<Drive>,
> {
    /// The stream of tasks of a storage that polls and shares a listener. Batches hold at
    /// least one task, so the buffer must have room for one.
    pub fn poll_shared(self, worker: &String) -> (plan: PollPlan<
        Pool,
        LazyFetch<Pool, SharedFetcher<Drive>>,
    >)
        requires
            self@.config.buffer_size > 0,
        ensures
            self@.is_streamed_by(plan, *worker, "SharedPostgresStorage"@),
            self@.is_fetched_by(plan.lazy, *worker),
            plan.lazy.source == self@.fetcher,
    {
        let register = self.registration(worker, "SharedPostgresStorage");
        let eager = self.poll_fetcher(worker);
        let pool = self.pool().clone();
        let buffer_size: usize = self.config().buffer_size;
        PollPlan {
            register,
            lazy: LazyFetch {
                source: self.into_fetcher(),
                pool,
                worker_id: worker.clone(),
                buffer_size,
            },
            eager,
        }
    }
}

/// A storage that shares a listener and one that has its own, with the same pool, settings and
/// ceiling, have the same stream for a worker, but for where identifiers come from and the name
/// under which the worker is registered: the same batches are queried for in the same words, and
/// the queue is polled alike.
pub proof fn shared_and_notified_streams_agree<Pool, Drive>(
    notified: StorageView<Pool, PgNotify>,
    notified_plan: PollPlan<Pool, LazyFetch<Pool, Listener>>,
    shared: StorageView<Pool, SharedFetcher<Drive>>,
    shared_plan: PollPlan<Pool, LazyFetch<Pool, SharedFetcher<Drive>>>,
    worker: String,
)
    requires
        notified.pool == shared.pool,
        notified.config == shared.config,
        notified.max_poll_backoff == shared.max_poll_backoff,
        notified.is_streamed_by(notified_plan, worker, "PostgresStorageWithNotify"@),
        notified.is_fetched_by(notified_plan.lazy, worker),
        shared.is_streamed_by(shared_plan, worker, "SharedPostgresStorage"@),
        shared.is_fetched_by(shared_plan.lazy, worker),
    ensures
        shared_plan.register.pool == notified_plan.register.pool,
        shared_plan.register.config == notified_plan.register.config,
        shared_plan.register.worker == notified_plan.register.worker,
        shared_plan.register.storage_type@ != notified_plan.register.storage_type@,
        shared_plan.lazy.pool == notified_plan.lazy.pool,
        shared_plan.lazy.worker_id == notified_plan.lazy.worker_id,
        shared_plan.lazy.buffer_size == notified_plan.lazy.buffer_size,
        forall|batches: Seq<Seq<PgTaskId>>, queries: Seq<QueueById>|
            shared_plan.lazy.is_queried_by(batches, queries)
                == notified_plan.lazy.is_queried_by(batches, queries),
        shared.is_polled_by(notified_plan.eager, worker),
        notified.is_polled_by(shared_plan.eager, worker),
{
    reveal_strlit("PostgresStorageWithNotify");
    reveal_strlit("SharedPostgresStorage");
    assert("PostgresStorageWithNotify"@.len() != "SharedPostgresStorage"@.len());
}

/// What a request is answered, and why: where the registry is in use it is said to be locked,
/// where the registry has the queue the request is refused with the queue's name, and else it is
/// granted.
pub proof fn request_is_answered_for_the_registry<C>(
    channels: Option<Map<Seq<char>, C>>,
    queue: Seq<char>,
    answer: Result<(), SharedPostgresError>,
)
    requires
        is_answer(channels, queue, answer),
    ensures
        channels is None <==> answer matches Err(SharedPostgresError::RegistryLocked),
        channels is Some && channels->0.contains_key(queue) <==> answer matches Err(
            SharedPostgresError::NamespaceExists(_),
        ),
        answer matches Err(SharedPostgresError::NamespaceExists(name)) ==> name@ == queue,
        channels is Some && !channels->0.contains_key(queue) <==> answer is Ok,
{
}

/// An answer is the same whether or not what was handed out is left aside.
pub proof fn outcome_keeps_the_answer<T>(answer: Result<T, SharedPostgresError>)
    ensures
        outcome_of(answer) is Ok <==> answer is Ok,
        answer matches Err(e) ==> outcome_of(answer) == Err::<(), SharedPostgresError>(e),
{
}

/// A request that is made while no one else holds the registry is not refused as locked.
pub proof fn free_registry_is_not_locked<Args, Pool, Drive: Clone, Compact, Codec>(
    store: SharedPostgresStorage<Pool, Drive, Compact, Codec>,
    config: Config,
    storage: Result<
        PostgresStorage<Args, Pool, Compact, Codec, SharedFetcher<Drive>>,
        SharedPostgresError,
    >,
)
    requires
        store.answers(config, storage),
        !held_at_some_time(store.registry.lock(), store.registry.tries()),
    ensures
        storage is Ok || storage matches Err(SharedPostgresError::NamespaceExists(_)),
{
}

/// Where a request is not refused as locked, the store's own registry decides, as the request
/// finds it: it is granted if and only if the registry lacks the queue. Either way the registry
/// is left with the queue and a channel for it, and with all other queues as they were. A storage
/// that is handed out is the store's own, for the queue that was asked for, and what is sent
/// through the queue's channel arrives there.
pub proof fn registry_decides_the_request<Args, Pool, Drive: Clone, Compact, Codec>(
    store: SharedPostgresStorage<Pool, Drive, Compact, Codec>,
    config: Config,
    storage: Result<
        PostgresStorage<Args, Pool, Compact, Codec, SharedFetcher<Drive>>,
        SharedPostgresError,
    >,
)
    requires
        store.answers(config, storage),
        !(storage matches Err(SharedPostgresError::RegistryLocked)),
    ensures
        exists|
            before: Map<Seq<char>, Sender<PgTaskId>>,
            after: Map<Seq<char>, Sender<PgTaskId>>,
        |
            {
                &&& #[trigger] accessed(
                    store.registry.lock(),
                    Some(store.registry.tries()),
                    before,
                    after,
                )
                &&& storage is Ok <==> !before.contains_key(config.queue@)
                &&& after.dom() == before.dom().insert(config.queue@)
                &&& forall|other: Seq<char>|
                    other != config.queue@ && before.contains_key(other) ==> #[trigger] after[other]
                        == before[other]
                &&& storage matches Ok(s) ==> is_connected_to(
                    after[config.queue@],
                    locked_receiver(*s@.fetcher.receiver),
                )
            },
        storage matches Ok(s) ==> {
            &&& s@.pool == store.pool
            &&& s@.config == config
            &&& s@.max_poll_backoff == 300_000_000_000
            &&& cloned(store.drive, s@.fetcher.poller)
            &&& channel_buffer(locked_receiver(*s@.fetcher.receiver)) == config.buffer_size
        },
        storage matches Err(SharedPostgresError::NamespaceExists(name)) ==> name@ == config.queue@,
{
    let queue = config.queue@;
    if let Ok(s) = storage {
        let (before, sender) = choose|
            before: Map<Seq<char>, Sender<PgTaskId>>,
            sender: Sender<PgTaskId>,
        |
            {
                &&& #[trigger] store.next_access(before, before.insert(queue, sender))
                &&& !before.contains_key(queue)
                &&& feeds(before.insert(queue, sender), queue, s@.fetcher)
            };
        let after = before.insert(queue, sender);
        assert(accessed(store.registry.lock(), Some(store.registry.tries()), before, after));
        assert(after.dom() =~= before.dom().insert(queue));
    } else {
        let (before, channel) = choose|
            before: Map<Seq<char>, Sender<PgTaskId>>,
            channel: (Sender<PgTaskId>, Receiver<PgTaskId>),
        |
            {
                &&& #[trigger] store.next_access(before, before.insert(queue, channel.0))
                &&& before.contains_key(queue)
                &&& #[trigger] is_channel(channel.0, channel.1)
                &&& !is_connected_to(before[queue], channel.1)
            };
        let after = before.insert(queue, channel.0);
        assert(accessed(store.registry.lock(), Some(store.registry.tries()), before, after));
        assert(after.dom() =~= before.dom().insert(queue));
    }
}

/// A fetcher hands on what its receiver gave, and has nothing yet where the receiver is in use.
pub proof fn fetcher_hands_on_what_arrives(received: Polled<PgTaskId>)
    ensures
        handed_on(Some(received)) == received,
        handed_on(None) is Pending,
{
}

/// A channel can be made with any buffer below a quarter of the largest `usize`.
pub proof fn buffers_that_a_channel_can_have(buffer: usize)
    ensures
        buffer < channel_buffer_limit() <==> buffer < usize::MAX / 4,
{
}

/// A storage is fed by a registry if and only if the registry has a channel for the queue, and
/// what is sent through that arrives at the storage.
pub proof fn fed_storage_is_connected<Drive>(
    channels: Map<Seq<char>, Sender<PgTaskId>>,
    queue: Seq<char>,
    fetcher: SharedFetcher<Drive>,
)
    ensures
        feeds(channels, queue, fetcher) <==> channels.contains_key(queue) && is_connected_to(
            channels[queue],
            locked_receiver(*fetcher.receiver),
        ),
{
}

} // verus!
