//! Where new tasks are pushed.
use vstd::prelude::*;

use core::marker::PhantomData;
use std::sync::Arc;

use crate::config::Config;

verus! {

/// Pushes tasks to the queue of `config` through `pool`.
pub struct PgSink<Args, Pool, Compact, Codec> {
    pub pool: Arc<Pool>,
    pub config: Config,
    pub _marker: PhantomData<(Args, Compact, Codec)>,
}

impl<Args, Pool, Compact, Codec> PgSink<Args, Pool, Compact, Codec> {
    pub fn new(pool: &Arc<Pool>, config: &Config) -> (sink: Self)
        ensures
            sink.pool == *pool,
            sink.config == *config,
    {
        PgSink { pool: pool.clone(), config: config.clone(), _marker: PhantomData }
    }
}

impl<Args, Pool, Compact, Codec> Clone for PgSink<Args, Pool, Compact, Codec> {
    fn clone(&self) -> (sink: Self)
        ensures
            sink == *self,
    {
        PgSink { pool: self.pool.clone(), config: self.config.clone(), _marker: PhantomData }
    }
}

} // verus!
