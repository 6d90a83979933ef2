//! Configuration of a queue.
use vstd::prelude::*;

verus! {

/// A span of time in nanoseconds.
pub type Nanos = u128;

/// One second.
pub const SECOND: Nanos = 1_000_000_000;

/// Settings of a queue that the storage and its streams read. The strategy by which a worker
/// polls stays with `apalis_sql`'s configuration.
#[derive(Debug)]
pub struct Config {
    /// Name of the queue, by which its tasks and events are told apart.
    pub queue: String,
    /// How many tasks are fetched, and how many events are buffered, at once.
    pub buffer_size: usize,
    /// Time between two signs of life of a worker.
    pub keep_alive: Nanos,
    /// Time after which the tasks of a silent worker go back to the queue.
    pub reenqueue_orphaned_after: Nanos,
    /// Whether tasks are acknowledged once they are done.
    pub ack: bool,
}

/// Calls `Config::new` of `apalis_sql`, which takes the name of the queue and sets the rest to
/// its defaults: a buffer of 10, 30 seconds of keep-alive, 5 minutes for orphans, and
/// acknowledgement on.
#[verifier::external_body]
fn sql_config(queue: &str) -> (config: Config)
    ensures
        config.queue@ == queue@,
        config.buffer_size == 10,
        config.keep_alive == 30 * SECOND,
        config.reenqueue_orphaned_after == 300 * SECOND,
        config.ack,
{
    let c = apalis_sql::config::Config::new(queue);
    Config {
        queue: c.queue().to_string(),
        buffer_size: c.buffer_size(),
        keep_alive: c.keep_alive().as_nanos(),
        reenqueue_orphaned_after: c.reenqueue_orphaned_after().as_nanos(),
        ack: c.ack(),
    }
}

impl Config {
    /// The settings that a queue has by default.
    pub open spec fn is_default(&self) -> bool {
        &&& self.buffer_size == 10
        &&& self.keep_alive == 30 * SECOND
        &&& self.reenqueue_orphaned_after == 300 * SECOND
        &&& self.ack
    }

    /// The default settings for the queue of the given name.
    pub fn new(queue: &str) -> (config: Config)
        ensures
            config.queue@ == queue@,
            config.is_default(),
    {
        sql_config(queue)
    }
}

impl Clone for Config {
    fn clone(&self) -> (config: Self)
        ensures
            config == *self,
    {
        Config {
            queue: self.queue.clone(),
            buffer_size: self.buffer_size,
            keep_alive: self.keep_alive,
            reenqueue_orphaned_after: self.reenqueue_orphaned_after,
            ack: self.ack,
        }
    }
}

/// What a queue's settings are by default: room for 10 tasks, a sign of life every 30 seconds,
/// orphans back after 5 minutes, and acknowledgement. Nothing else counts as the default.
pub proof fn default_settings(config: Config)
    ensures
        config.is_default() <==> config.buffer_size == 10 && config.keep_alive == 30_000_000_000
            && config.reenqueue_orphaned_after == 300_000_000_000 && config.ack,
{
}

} // verus!
