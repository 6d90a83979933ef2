use std::sync::Arc;

use apalis_postgres::{
    Config, InsertEvent, Listener, PgNotify, PgPollFetcher, PgTaskId, PostgresStorage,
    DEFAULT_MAX_POLL_BACKOFF, FIRST_POLL_DELAY, INSERT_CHANNEL, SECOND,
};

struct Email;

struct OtherCodec;

fn config() -> Config {
    Config {
        queue: "email".to_string(),
        buffer_size: 4,
        keep_alive: 7 * SECOND,
        reenqueue_orphaned_after: 9 * SECOND,
        ack: false,
    }
}

fn event(queue: &str, ulid: u128) -> Option<InsertEvent> {
    Some(InsertEvent { job_type: queue.to_string(), id: PgTaskId { ulid } })
}

#[test]
fn default_config() {
    let config = Config::new("email");
    assert_eq!(config.queue, "email");
    assert_eq!(config.buffer_size, 10);
    assert_eq!(config.keep_alive, 30_000_000_000);
    assert_eq!(config.reenqueue_orphaned_after, 300_000_000_000);
    assert!(config.ack);
}

#[test]
fn new_takes_the_type_as_queue() {
    let pool = Arc::new("pool");
    let storage: PostgresStorage<Email, &str> = PostgresStorage::new(&pool, "app::Email");
    assert_eq!(storage.get_queue(), "app::Email");
    assert_eq!(storage.config().buffer_size, 10);
    assert!(Arc::ptr_eq(storage.pool(), &pool));
    assert_eq!(storage.max_poll_backoff(), DEFAULT_MAX_POLL_BACKOFF);
}

#[test]
fn ceiling_is_five_minutes_by_default() {
    assert_eq!(DEFAULT_MAX_POLL_BACKOFF, 300 * 1_000_000_000);
    let pool = Arc::new("pool");
    let polling: PostgresStorage<Email, &str> = PostgresStorage::new_with_config(&pool, &config());
    assert_eq!(polling.max_poll_backoff(), DEFAULT_MAX_POLL_BACKOFF);
    let notified = PostgresStorage::<Email, &str>::new_with_notify(&pool, &config());
    assert_eq!(notified.max_poll_backoff(), DEFAULT_MAX_POLL_BACKOFF);
}

#[test]
fn ceiling_can_be_set() {
    let pool = Arc::new("pool");
    let storage: PostgresStorage<Email, &str> = PostgresStorage::new_with_config(&pool, &config());
    let storage = storage.set_max_poll_backoff(3 * SECOND);
    assert_eq!(storage.max_poll_backoff(), 3 * SECOND);
    assert_eq!(storage.get_queue(), "email");
    assert!(Arc::ptr_eq(storage.pool(), &pool));
    let plan = storage.poll_basic(&"w".to_string());
    assert_eq!(plan.eager.max_poll_backoff, 3 * SECOND);
}

#[test]
fn sink_pushes_to_the_storage_s_queue() {
    let pool = Arc::new("pool");
    let storage: PostgresStorage<Email, &str> = PostgresStorage::new_with_config(&pool, &config());
    assert_eq!(storage.sink().config.queue, "email");
    let other = storage.clone().with_codec::<OtherCodec>();
    assert_eq!(other.sink().config.queue, "email");
    assert!(Arc::ptr_eq(&other.sink().pool, &pool));
}

#[test]
fn clone_and_codec_keep_the_rest() {
    let pool = Arc::new("pool");
    let storage = PostgresStorage::<Email, &str>::new_with_notify(&pool, &config());
    let storage = storage.set_max_poll_backoff(SECOND);
    let copy = storage.clone().with_codec::<OtherCodec>();
    assert_eq!(copy.max_poll_backoff(), SECOND);
    assert_eq!(copy.config().queue, "email");
    assert_eq!(copy.config().buffer_size, 4);
    assert_eq!(copy.config().keep_alive, 7 * SECOND);
    assert_eq!(copy.config().reenqueue_orphaned_after, 9 * SECOND);
    assert!(!copy.config().ack);
    assert!(Arc::ptr_eq(copy.pool(), &pool));
    let _: PgNotify = PgNotify::default().clone();
}

#[test]
fn heartbeat_of_a_worker() {
    let pool = Arc::new("pool");
    let storage: PostgresStorage<Email, &str> = PostgresStorage::new_with_config(&pool, &config());
    let heartbeat = storage.heartbeat(&"rango-tango-1".to_string());
    assert_eq!(heartbeat.keep_alive.worker, "rango-tango-1");
    assert_eq!(heartbeat.keep_alive.config.queue, "email");
    assert_eq!(heartbeat.reenqueue.interval, 7 * SECOND);
    assert_eq!(heartbeat.reenqueue.config.reenqueue_orphaned_after, 9 * SECOND);
    assert!(Arc::ptr_eq(&heartbeat.keep_alive.pool, &pool));
    assert!(Arc::ptr_eq(&heartbeat.reenqueue.pool, &pool));
}

#[test]
fn middleware_works_on_the_pool() {
    let pool = Arc::new("pool");
    let storage: PostgresStorage<Email, &str> = PostgresStorage::new_with_config(&pool, &config());
    let (lock, ack) = storage.middleware();
    assert!(Arc::ptr_eq(&lock.pool, &pool));
    assert!(Arc::ptr_eq(&ack.pool, &pool));
}

#[test]
fn stream_of_a_polling_storage() {
    let pool = Arc::new("pool");
    let storage: PostgresStorage<Email, &str> = PostgresStorage::new_with_config(&pool, &config());
    let plan = storage.poll_basic(&"rango-tango-1".to_string());
    assert_eq!(plan.register.storage_type, "PostgresStorage");
    assert_eq!(plan.register.worker, "rango-tango-1");
    assert_eq!(plan.register.config.queue, "email");
    assert_eq!(plan.eager.worker, "rango-tango-1");
    assert_eq!(plan.eager.config.queue, "email");
    assert_eq!(plan.eager.max_poll_backoff, DEFAULT_MAX_POLL_BACKOFF);
    assert_eq!(plan.eager.delay, FIRST_POLL_DELAY);
}

#[test]
fn stream_of_a_notified_storage() {
    let pool = Arc::new("pool");
    let storage = PostgresStorage::<Email, &str>::new_with_notify(&pool, &config());
    let plan = storage.poll_with_notify(&"rango-tango-2".to_string());
    assert_eq!(plan.register.storage_type, "PostgresStorageWithNotify");
    assert_eq!(plan.lazy.source.channel, "apalis::job::insert");
    assert_eq!(plan.lazy.source.namespace, "email");
    assert_eq!(plan.lazy.buffer_size, 4);
    assert_eq!(plan.lazy.worker_id, "rango-tango-2");
    assert!(Arc::ptr_eq(&plan.lazy.pool, &pool));
    assert_eq!(plan.eager.worker, "rango-tango-2");
    let query = plan.lazy.query(vec![PgTaskId { ulid: 1 }, PgTaskId { ulid: 32 }]);
    assert_eq!(query.worker_id, "rango-tango-2");
    assert_eq!(query.ids, vec!["00000000000000000000000001", "00000000000000000000000010"]);
}

#[test]
fn listener_accepts_its_own_queue() {
    let listener = Listener::new(&"email".to_string());
    assert_eq!(listener.channel, INSERT_CHANNEL);
    assert_eq!(listener.accept(event("email", 8)), Some(PgTaskId { ulid: 8 }));
    assert_eq!(listener.accept(event("emails", 8)), None);
    assert_eq!(listener.accept(event("", 8)), None);
    assert_eq!(listener.accept(None), None);
}

#[test]
fn announcements_of_the_queue_are_queried_in_order() {
    let pool = Arc::new("pool");
    let storage = PostgresStorage::<Email, &str>::new_with_notify(&pool, &config());
    let fetch = storage.poll_with_notify(&"w".to_string()).lazy;
    let events = vec![
        event("email", 1),
        None,
        event("sms", 2),
        event("email", 3),
        event("email", 1),
        event("", 4),
        event("email", 31),
    ];
    let ids: Vec<PgTaskId> =
        events.into_iter().filter_map(|event| fetch.source.accept(event)).collect();
    let mut texts: Vec<String> = Vec::new();
    for batch in ids.chunks(2) {
        let query = fetch.query(batch.to_vec());
        assert!(!query.ids.is_empty() && query.ids.len() <= fetch.buffer_size);
        assert_eq!(query.worker_id, "w");
        texts.extend(query.ids);
    }
    assert_eq!(
        texts,
        vec![
            "00000000000000000000000001",
            "00000000000000000000000003",
            "00000000000000000000000001",
            "0000000000000000000000000Z",
        ]
    );
}

fn fetcher(ceiling: u128) -> PgPollFetcher<&'static str, Vec<u8>> {
    PgPollFetcher::new(&Arc::new("pool"), &config(), &"w".to_string(), ceiling)
}

#[test]
fn idle_delay_doubles_and_work_resets_it() {
    let mut f = fetcher(DEFAULT_MAX_POLL_BACKOFF);
    assert_eq!(f.delay, SECOND);
    for seconds in [2, 4, 8, 16, 32, 64, 128, 256, 300, 300] {
        f.record_poll(0);
        assert_eq!(f.delay, seconds * SECOND);
    }
    f.record_poll(1);
    assert_eq!(f.delay, SECOND);
    f.record_poll(0);
    assert_eq!(f.delay, 2 * SECOND);
}

#[test]
fn delay_is_never_below_the_first_one() {
    for ceiling in [SECOND, SECOND + 1, 2 * SECOND - 1, 7 * SECOND] {
        let mut f = fetcher(ceiling);
        for fetched in [0, 0, 3, 0, 0, 0, 0, 1, 0] {
            assert!(f.delay >= SECOND && f.delay <= ceiling);
            f.record_poll(fetched);
        }
    }
}

#[test]
fn default_ceiling_is_reached_in_about_eight_and_a_half_minutes() {
    let mut f = fetcher(DEFAULT_MAX_POLL_BACKOFF);
    let mut waited: u128 = 0;
    while f.delay < DEFAULT_MAX_POLL_BACKOFF {
        waited += f.delay;
        f.record_poll(0);
    }
    assert_eq!(waited, 511 * SECOND);
}

#[test]
fn low_and_high_ceilings() {
    let mut f = fetcher(SECOND / 2);
    f.record_poll(0);
    assert_eq!(f.delay, SECOND / 2);
    f.record_poll(0);
    assert_eq!(f.delay, SECOND / 2);
    f.record_poll(3);
    assert_eq!(f.delay, SECOND);
    let mut f = fetcher(3 * SECOND);
    f.record_poll(0);
    assert_eq!(f.delay, 2 * SECOND);
    f.record_poll(0);
    assert_eq!(f.delay, 3 * SECOND);
    let mut f = fetcher(u128::MAX);
    for _ in 0..200 {
        f.record_poll(0);
    }
    assert_eq!(f.delay, u128::MAX);
}
