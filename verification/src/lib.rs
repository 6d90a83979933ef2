//! Storage of background tasks in a Postgres database.
//!
//! A [`PostgresStorage`] holds the tasks of one queue. Workers get them as a stream, which polls
//! the queue at the pace of a [`PgPollFetcher`] and may, between polls, be told of inserted
//! tasks: by a [`Listener`] of its own, or by the one that the storages of a
//! [`SharedPostgresStorage`] share.
//!
//! What is computed, decided and parsed along the way stands here with its contracts. The
//! statements that the database runs, and the streams that wait for it, are for the crate that
//! uses this one: a storage's [`PollPlan`] and [`Heartbeat`] tell it what to run, and
//! [`batch_items`], [`registration_item`] and [`decoded_item`] what to make of the replies.
pub mod ack;
pub mod config;
pub mod fetcher;
pub mod notify;
pub mod plan;
pub mod poll;
pub mod registry;
pub mod registry_lock;
pub mod shared;
pub mod sink;
pub mod storage;
pub mod task;
pub mod task_id;

pub use ack::{LockTaskLayer, PgAck};
pub use config::{Config, Nanos, SECOND};
pub use fetcher::{PgFetcher, PgPollFetcher, DEFAULT_MAX_POLL_BACKOFF, FIRST_POLL_DELAY};
pub use notify::{InsertEvent, Listener, INSERT_CHANNEL};
pub use plan::{
    Heartbeat, KeepAlive, LazyFetch, PollPlan, QueueById, Reenqueue, Registration,
};
pub use poll::{
    batch_items, decoded_item, registration_item, row_item, BatchReply, Item, PollError,
};
pub use registry::Registry;
pub use registry_lock::RegistryLock;
pub use shared::{
    register, Polled, SharedFetcher, SharedPostgresError, SharedPostgresStorage,
};
pub use sink::PgSink;
pub use storage::{PgNotify, PostgresStorage};
pub use task::{CompactType, Parts, PgContext, PgTask, TaskRow};
pub use task_id::PgTaskId;
