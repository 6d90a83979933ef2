//! Layers through which a worker runs a task.
use vstd::prelude::*;

use std::sync::Arc;

verus! {

/// Locks a task to its worker before it runs.
pub struct LockTaskLayer<Pool> {
    pub pool: Arc<Pool>,
}

impl<Pool> LockTaskLayer<Pool> {
    pub fn new(pool: Arc<Pool>) -> (layer: Self)
        ensures
            layer.pool == pool,
    {
        LockTaskLayer { pool }
    }
}

/// Acknowledges a task after it ran.
pub struct PgAck<Pool> {
    pub pool: Arc<Pool>,
}

impl<Pool> PgAck<Pool> {
    pub fn new(pool: Arc<Pool>) -> (ack: Self)
        ensures
            ack.pool == pool,
    {
        PgAck { pool }
    }
}

} // verus!
