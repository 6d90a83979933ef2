use std::sync::Arc;

use apalis_postgres::{
    register, Config, InsertEvent, PgTaskId, Polled, PostgresStorage, Registry, SharedFetcher,
    SharedPostgresError, SharedPostgresStorage, DEFAULT_MAX_POLL_BACKOFF, SECOND,
};
use apalis_codec::json::JsonCodec;
use futures::channel::mpsc::{channel, Sender};
use futures::lock::Mutex;

type Channels = Arc<Mutex<Registry<Sender<PgTaskId>>>>;
type Shared = SharedPostgresStorage<&'static str, u8>;
type Storage =
    PostgresStorage<u32, &'static str, Vec<u8>, JsonCodec<Vec<u8>>, SharedFetcher<u8>>;

fn shared() -> (Shared, Channels) {
    let shared = SharedPostgresStorage::new(Arc::new("pool"), |_, _| 5);
    let registry: Channels = shared.registry.clone();
    (shared, registry)
}

fn event(queue: &str, ulid: u128) -> InsertEvent {
    InsertEvent { job_type: queue.to_string(), id: PgTaskId { ulid } }
}

fn send(registry: &Channels, queue: &str, ulid: u128) -> bool {
    let mut registry = registry.try_lock().unwrap();
    match registry.dispatch(event(queue, ulid)) {
        Some((sender, id)) => sender.try_send(id).is_ok(),
        None => false,
    }
}

fn received(storage: &Storage) -> Option<PgTaskId> {
    let plan = storage.clone().poll_shared(&"w".to_string());
    let mut receiver = plan.lazy.source.receiver.try_lock().unwrap();
    receiver.try_recv().ok()
}

fn leads_to(registry: &Channels, queue: &str, storage: &Storage) -> bool {
    let plan = storage.clone().poll_shared(&"w".to_string());
    let receiver = plan.lazy.source.receiver.try_lock().unwrap();
    let mut registry = registry.try_lock().unwrap();
    let (sender, _) = registry.dispatch(event(queue, 0)).unwrap();
    sender.is_connected_to(&receiver)
}

#[test]
fn registry_maps_queues_to_channels() {
    let mut registry: Registry<u8> = Registry::new();
    assert!(!registry.contains(&"a".to_string()));
    assert_eq!(registry.insert("a".to_string(), 1), None);
    assert_eq!(registry.insert("b".to_string(), 2), None);
    assert_eq!(registry.insert("a".to_string(), 3), Some(1));
    assert!(registry.contains(&"a".to_string()));
    assert!(registry.contains(&"b".to_string()));
    assert!(!registry.contains(&"ab".to_string()));
    match registry.dispatch(event("a", 9)) {
        Some((channel, id)) => {
            assert_eq!(*channel, 3);
            assert_eq!(id, PgTaskId { ulid: 9 });
            *channel = 4;
        }
        None => panic!("no channel"),
    }
    assert_eq!(registry.insert("a".to_string(), 0), Some(4));
    assert_eq!(registry.insert("b".to_string(), 0), Some(2));
    assert!(registry.dispatch(event("c", 9)).is_none());
}

#[test]
fn registry_routes_events_of_its_queues() {
    let mut registry: Registry<u8> = Registry::new();
    registry.insert("a".to_string(), 1);
    let routed = registry.route(Some(event("a", 3))).unwrap();
    assert_eq!(routed.job_type, "a");
    assert_eq!(routed.id, PgTaskId { ulid: 3 });
    assert!(registry.route(Some(event("b", 3))).is_none());
    assert!(registry.route(None).is_none());
}

#[test]
fn routed_event_can_be_dispatched_later() {
    let mut registry: Registry<u8> = Registry::new();
    registry.insert("a".to_string(), 1);
    let routed = registry.route(Some(event("a", 3))).unwrap();
    registry.insert("b".to_string(), 2);
    registry.insert("c".to_string(), 3);
    assert_eq!(registry.dispatch(routed).map(|(channel, _)| *channel), Some(1));
}

#[test]
fn queue_gets_its_own_identifiers_in_order() {
    let mut registry: Registry<Vec<u128>> = Registry::new();
    registry.insert("a".to_string(), vec![]);
    registry.insert("b".to_string(), vec![]);
    let events = vec![
        Some(event("a", 1)),
        None,
        Some(event("c", 2)),
        Some(event("b", 3)),
        Some(event("a", 1)),
        Some(event("a", 4)),
    ];
    for notification in events {
        if let Some(routed) = registry.route(notification) {
            let (channel, id) = registry.dispatch(routed).unwrap();
            channel.push(id.ulid);
        }
    }
    assert_eq!(registry.insert("a".to_string(), vec![]), Some(vec![1, 1, 4]));
    assert_eq!(registry.insert("b".to_string(), vec![]), Some(vec![3]));
    assert!(!registry.contains(&"c".to_string()));
}

#[test]
fn register_refuses_a_known_queue_and_replaces_its_channel() {
    let mut registry: Registry<u8> = Registry::new();
    let queue = "a".to_string();
    assert!(register(Some(&mut registry), &queue, 1).is_ok());
    let refused = register(Some(&mut registry), &queue, 2);
    assert!(matches!(refused, Err(SharedPostgresError::NamespaceExists(name)) if name == "a"));
    assert_eq!(registry.dispatch(event("a", 0)).map(|(channel, _)| *channel), Some(2));
}

#[test]
fn register_without_registry() {
    let refused = register(None::<&mut Registry<u8>>, &"a".to_string(), 1);
    assert!(matches!(refused, Err(SharedPostgresError::RegistryLocked)));
}

#[test]
fn errors_as_texts() {
    let exists = SharedPostgresError::NamespaceExists("email".to_string());
    assert_eq!(exists.message(), "namespace already exists: email");
    assert_eq!(SharedPostgresError::RegistryLocked.message(), "registry locked");
}

#[test]
fn driver_is_made_for_the_pool_and_an_empty_registry() {
    let pool = Arc::new("pool");
    let mut seen: Option<(Arc<&str>, Channels)> = None;
    let shared = SharedPostgresStorage::new(pool.clone(), |pool, registry: Channels| {
        assert!(!registry.try_lock().unwrap().contains(&"email".to_string()));
        seen = Some((pool, registry));
        "driver"
    });
    let (seen_pool, seen_registry) = seen.unwrap();
    assert!(Arc::ptr_eq(&seen_pool, &pool));
    assert!(Arc::ptr_eq(&shared.pool, &pool));
    assert!(Arc::ptr_eq(&seen_registry, &shared.registry));
    assert_eq!(shared.drive, "driver");
}

#[test]
fn shared_storages_hear_their_own_queue() {
    let (mut shared, registry) = shared();
    let map_store: Storage = shared.make_shared("map").unwrap();
    let int_store: Storage = shared.make_shared("int").unwrap();
    assert_eq!(map_store.get_queue(), "map");
    assert_eq!(int_store.get_queue(), "int");
    assert_eq!(int_store.config().buffer_size, 10);
    assert_eq!(int_store.max_poll_backoff(), DEFAULT_MAX_POLL_BACKOFF);
    assert!(send(&registry, "int", 99));
    assert!(!send(&registry, "float", 1));
    assert_eq!(received(&map_store), None);
    assert_eq!(received(&int_store), Some(PgTaskId { ulid: 99 }));
    assert_eq!(received(&int_store), None);
    assert!(send(&registry, "map", 7));
    assert_eq!(received(&map_store), Some(PgTaskId { ulid: 7 }));
}

#[test]
fn channel_has_the_configured_buffer() {
    let (mut shared, registry) = shared();
    let mut config = Config::new("email");
    config.buffer_size = 2;
    let storage: Storage = shared.make_shared_with_config(config).unwrap();
    assert_eq!(storage.config().buffer_size, 2);
    // The one sender has a place of its own beside the buffer.
    assert!(send(&registry, "email", 1));
    assert!(send(&registry, "email", 2));
    assert!(send(&registry, "email", 3));
    assert!(!send(&registry, "email", 4));
    assert_eq!(received(&storage), Some(PgTaskId { ulid: 1 }));
}

#[test]
fn second_storage_for_a_queue_is_refused() {
    let (mut shared, registry) = shared();
    let first: Storage = shared.make_shared("email").unwrap();
    let other: Storage = shared.make_shared("sms").unwrap();
    assert!(leads_to(&registry, "email", &first));
    let second: Result<Storage, SharedPostgresError> = shared.make_shared("email");
    assert!(matches!(second, Err(SharedPostgresError::NamespaceExists(name)) if name == "email"));
    // The refused request has taken the queue's events away from the first storage, and from
    // no other.
    assert!(!send(&registry, "email", 1));
    assert_eq!(received(&first), None);
    assert!(!leads_to(&registry, "email", &first));
    assert!(leads_to(&registry, "sms", &other));
}

#[test]
fn queue_stays_handed_out_when_its_storage_is_gone() {
    let (mut shared, registry) = shared();
    let first: Storage = shared.make_shared("email").unwrap();
    drop(first);
    for _ in 0..3 {
        let again: Result<Storage, SharedPostgresError> = shared.make_shared("email");
        assert!(
            matches!(again, Err(SharedPostgresError::NamespaceExists(name)) if name == "email")
        );
        assert!(registry.try_lock().unwrap().contains(&"email".to_string()));
    }
}

#[test]
fn granted_request_enters_the_queue_into_the_store_s_registry() {
    let (mut shared, registry) = shared();
    assert!(!registry.try_lock().unwrap().contains(&"email".to_string()));
    let storage: Storage = shared.make_shared("email").unwrap();
    assert!(registry.try_lock().unwrap().contains(&"email".to_string()));
    let plan = storage.poll_shared(&"w".to_string());
    let mut registry = registry.try_lock().unwrap();
    let (sender, _) = registry.dispatch(event("email", 1)).unwrap();
    assert!(sender.is_connected_to(&plan.lazy.source.receiver.try_lock().unwrap()));
}

#[test]
fn storage_stays_fed_while_it_is_sent_to() {
    let (mut shared, registry) = shared();
    let storage: Storage = shared.make_shared("email").unwrap();
    for ulid in 1..50u128 {
        let other: Result<Storage, SharedPostgresError> = shared.make_shared(&format!("q{ulid}"));
        assert!(other.is_ok());
        assert!(send(&registry, "email", ulid));
        assert!(leads_to(&registry, "email", &storage));
        assert_eq!(received(&storage), Some(PgTaskId { ulid }));
    }
}

#[test]
fn clones_of_a_storage_share_what_arrives() {
    let (mut shared, registry) = shared();
    let storage: Storage = shared.make_shared("email").unwrap();
    let clone = storage.clone();
    assert!(send(&registry, "email", 1));
    assert!(send(&registry, "email", 2));
    assert!(send(&registry, "email", 3));
    assert_eq!(received(&clone), Some(PgTaskId { ulid: 1 }));
    assert_eq!(received(&storage), Some(PgTaskId { ulid: 2 }));
    assert_eq!(received(&clone), Some(PgTaskId { ulid: 3 }));
    assert_eq!(received(&storage), None);
}

#[test]
fn storages_of_a_store_have_one_driver() {
    let driver = Arc::new("driver");
    let mut shared = SharedPostgresStorage::new(Arc::new("pool"), |_, _| driver.clone());
    let email: Result<PostgresStorage<u32, &str, Vec<u8>, JsonCodec<Vec<u8>>, _>, _> =
        shared.make_shared("email");
    let sms: Result<PostgresStorage<u64, &str, Vec<u8>, JsonCodec<Vec<u8>>, _>, _> =
        shared.make_shared("sms");
    let email = email.unwrap().poll_shared(&"w".to_string());
    let sms = sms.unwrap().poll_shared(&"w".to_string());
    assert!(Arc::ptr_eq(&email.lazy.source.poller, &driver));
    assert!(Arc::ptr_eq(&sms.lazy.source.poller, &driver));
}

#[test]
fn shared_and_notified_streams() {
    let (mut shared, _) = shared();
    let worker = "w".to_string();
    let storage: Storage = shared.make_shared("email").unwrap();
    let shared_plan = storage.poll_shared(&worker);
    let notified =
        PostgresStorage::<u32, &str>::new_with_notify(&shared.pool, &Config::new("email"));
    let notified_plan = notified.poll_with_notify(&worker);
    assert_eq!(shared_plan.register.worker, notified_plan.register.worker);
    assert_eq!(shared_plan.register.config.queue, notified_plan.register.config.queue);
    assert_ne!(shared_plan.register.storage_type, notified_plan.register.storage_type);
    assert_eq!(shared_plan.eager.delay, notified_plan.eager.delay);
    assert_eq!(shared_plan.eager.max_poll_backoff, notified_plan.eager.max_poll_backoff);
    let batch = vec![PgTaskId { ulid: 5 }, PgTaskId { ulid: 6 }];
    assert_eq!(
        shared_plan.lazy.query(batch.clone()).ids,
        notified_plan.lazy.query(batch).ids
    );
}

#[test]
fn registry_in_use_refuses_storages() {
    let (mut shared, registry) = shared();
    let held = registry.try_lock().unwrap();
    let refused: Result<Storage, SharedPostgresError> = shared.make_shared("email");
    assert!(matches!(refused, Err(SharedPostgresError::RegistryLocked)));
    assert!(!held.contains(&"email".to_string()));
    drop(held);
    let storage: Result<Storage, SharedPostgresError> = shared.make_shared("email");
    assert!(storage.is_ok());
}

#[test]
fn storage_through_a_given_channel() {
    let (shared, _) = shared();
    let mut registry: Registry<Sender<PgTaskId>> = Registry::new();
    let (sender, receiver) = channel(1);
    let probe = sender.clone();
    let storage: Storage = shared
        .make_shared_through(Some(&mut registry), Config::new("email"), (sender, receiver))
        .unwrap();
    let plan = storage.poll_shared(&"w".to_string());
    assert!(probe.is_connected_to(&plan.lazy.source.receiver.try_lock().unwrap()));
    let (registered, id) = registry.dispatch(event("email", 6)).unwrap();
    assert!(registered.same_receiver(&probe));
    assert_eq!(id, PgTaskId { ulid: 6 });
}

#[test]
fn stream_of_a_shared_storage() {
    let (mut shared, _) = shared();
    let storage: Storage = shared.make_shared("email").unwrap();
    let plan = storage.set_max_poll_backoff(SECOND).poll_shared(&"rango-tango-1".to_string());
    assert_eq!(plan.register.storage_type, "SharedPostgresStorage");
    assert_eq!(plan.register.worker, "rango-tango-1");
    assert_eq!(plan.lazy.source.poller, 5);
    assert_eq!(plan.lazy.buffer_size, 10);
    assert_eq!(plan.lazy.worker_id, "rango-tango-1");
    assert_eq!(plan.eager.max_poll_backoff, SECOND);
    assert_eq!(*plan.eager.pool, "pool");
}

#[test]
fn fetcher_waits_while_its_receiver_is_in_use() {
    let id = PgTaskId { ulid: 2 };
    assert!(matches!(SharedFetcher::<u8>::poll_next(None), Polled::Pending));
    assert!(matches!(SharedFetcher::<u8>::poll_next(Some(Polled::Pending)), Polled::Pending));
    assert!(matches!(
        SharedFetcher::<u8>::poll_next(Some(Polled::Ready(Some(id)))),
        Polled::Ready(Some(PgTaskId { ulid: 2 }))
    ));
    assert!(matches!(
        SharedFetcher::<u8>::poll_next(Some(Polled::Ready(None))),
        Polled::Ready(None)
    ));
}
