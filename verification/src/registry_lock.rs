//! The lock that a store's registry is kept under.
use vstd::prelude::*;

use std::ops::Deref;
use std::sync::Arc;

use futures::channel::mpsc::Sender;
use futures::lock::Mutex;

use crate::registry::Registry;
use crate::task_id::PgTaskId;

verus! {

/// A store's own hold on the lock of its registry. The driver has a handle of the same lock, but
/// there is one such value for a lock: whoever tries the lock for the store has it to themselves
/// until they give the lock back.
pub struct RegistryLock {
    handle: Arc<Mutex<Registry<Sender<PgTaskId>>>>,
    tries: Ghost<nat>,
}

impl RegistryLock {
    /// The handle of the lock.
    pub closed spec fn handle(&self) -> Arc<Mutex<Registry<Sender<PgTaskId>>>> {
        self.handle
    }

    /// The lock.
    pub open spec fn lock(&self) -> Mutex<Registry<Sender<PgTaskId>>> {
        *self.handle()
    }

    /// How often the lock was tried for the store.
    pub closed spec fn tries(&self) -> nat {
        self.tries@
    }

    /// The hold on a lock that was not tried yet.
    pub fn new(lock: Mutex<Registry<Sender<PgTaskId>>>) -> (registry: Self)
        ensures
            registry.lock() == lock,
            registry.tries() == 0,
    {
        RegistryLock { handle: Arc::new(lock), tries: Ghost(0) }
    }
}

impl Deref for RegistryLock {
    type Target = Arc<Mutex<Registry<Sender<PgTaskId>>>>;

    fn deref(&self) -> (handle: &Arc<Mutex<Registry<Sender<PgTaskId>>>>)
        ensures
            *handle == self.handle(),
    {
        &self.handle
    }
}

} // verus!
