//! Fetchers and the pace at which an idle queue is polled.
use vstd::arithmetic::power2::{lemma_pow2_unfold, pow2};
use vstd::prelude::*;

use core::marker::PhantomData;
use std::sync::Arc;

use crate::config::{Config, Nanos, SECOND};

verus! {

/// Default ceiling for the polling fetcher's idle backoff: five minutes.
///
/// An idle queue takes about 8.5 minutes of doubling to reach it, so queues that need their
/// tasks picked up sooner should lower it.
pub const DEFAULT_MAX_POLL_BACKOFF: Nanos = 60 * 5 * SECOND;

/// Delay between two polls of a queue that has just had work.
pub const FIRST_POLL_DELAY: Nanos = SECOND;

/// Marks a storage whose tasks come from polling alone.
pub struct PgFetcher<Compact, Codec> {
    pub _marker: PhantomData<(Compact, Codec)>,
}

impl<Compact, Codec> Clone for PgFetcher<Compact, Codec> {
    fn clone(&self) -> (fetcher: Self)
        ensures
            fetcher == *self,
    {
        PgFetcher { _marker: PhantomData }
    }
}

/// Polls the database for the tasks of a queue, on behalf of a worker.
pub struct PgPollFetcher<Pool, Compact> {
    pub pool: Arc<Pool>,
    pub config: Config,
    pub worker: String,
    /// Ceiling for the doubling of `delay`.
    pub max_poll_backoff: Nanos,
    /// Delay before the next poll.
    pub delay: Nanos,
    pub _marker: PhantomData<Compact>,
}

/// The delay that follows a poll: twice as long, up to the ceiling, when the poll came back
/// empty, and the first delay again when it returned work.
pub open spec fn next_delay(delay: nat, ceiling: nat, fetched: nat) -> nat {
    if fetched > 0 {
        FIRST_POLL_DELAY as nat
    } else if 2 * delay <= ceiling {
        2 * delay
    } else {
        ceiling
    }
}

/// The delay after `idle` empty polls in a row, counted from the last one that returned work.
pub open spec fn idle_delay(idle: nat, ceiling: nat) -> nat
    decreases idle,
{
    if idle == 0 {
        FIRST_POLL_DELAY as nat
    } else {
        next_delay(idle_delay((idle - 1) as nat, ceiling), ceiling, 0)
    }
}

impl<Pool, Compact> PgPollFetcher<Pool, Compact> {
    /// A fetcher that has not polled yet.
    pub fn new(
        pool: &Arc<Pool>,
        config: &Config,
        worker: &String,
        max_poll_backoff: Nanos,
    ) -> (fetcher: Self)
        ensures
            fetcher.pool == *pool,
            fetcher.config == *config,
            fetcher.worker == *worker,
            fetcher.max_poll_backoff == max_poll_backoff,
            fetcher.delay == idle_delay(0, max_poll_backoff as nat),
    {
        PgPollFetcher {
            pool: pool.clone(),
            config: config.clone(),
            worker: worker.clone(),
            max_poll_backoff,
            delay: FIRST_POLL_DELAY,
            _marker: PhantomData,
        }
    }

    /// Takes note of a poll that returned `fetched` tasks.
    pub fn record_poll(&mut self, fetched: usize)
        ensures
            final(self).delay == next_delay(
                old(self).delay as nat,
                old(self).max_poll_backoff as nat,
                fetched as nat,
            ),
            final(self).pool == old(self).pool,
            final(self).config == old(self).config,
            final(self).worker == old(self).worker,
            final(self).max_poll_backoff == old(self).max_poll_backoff,
    {
        if fetched > 0 {
            self.delay = FIRST_POLL_DELAY;
        } else if self.delay <= self.max_poll_backoff / 2 {
            self.delay = self.delay * 2;
        } else {
            self.delay = self.max_poll_backoff;
        }
    }
}

/// The delay of an idle queue doubles with every empty poll until it meets the ceiling: after
/// `idle` of them it is `2^idle` seconds or the ceiling, whichever is less.
pub proof fn idle_delay_doubles_up_to_ceiling(idle: nat, ceiling: nat)
    requires
        idle > 0,
    ensures
        idle_delay(idle, ceiling) == if pow2(idle) * SECOND <= ceiling {
            (pow2(idle) * SECOND) as nat
        } else {
            ceiling
        },
    decreases idle,
{
    lemma_pow2_unfold(idle);
    let fewer = (idle - 1) as nat;
    assert(pow2(idle) * SECOND == 2 * (pow2(fewer) * SECOND)) by (nonlinear_arith)
        requires
            pow2(idle) == 2 * pow2(fewer),
    ;
    if fewer == 0 {
        vstd::arithmetic::power2::lemma2_to64();
        assert(idle_delay(fewer, ceiling) == SECOND);
    } else {
        idle_delay_doubles_up_to_ceiling(fewer, ceiling);
    }
}

/// The delay of a fetcher after polls that returned the given numbers of tasks.
pub open spec fn delay_after(polls: Seq<nat>, ceiling: nat) -> nat
    decreases polls.len(),
{
    if polls.len() == 0 {
        FIRST_POLL_DELAY as nat
    } else {
        next_delay(delay_after(polls.drop_last(), ceiling), ceiling, polls.last())
    }
}

/// However often and with whatever results a queue is polled, the delay before the next poll
/// is at most the ceiling, or the first delay where the ceiling is below it; after an empty
/// poll it is at most the ceiling in any case. Where the ceiling is not below the first delay,
/// the delay never is.
pub proof fn delay_keeps_to_ceiling(polls: Seq<nat>, ceiling: nat)
    ensures
        delay_after(polls, ceiling) <= ceiling || delay_after(polls, ceiling) == FIRST_POLL_DELAY,
        polls.len() > 0 && polls.last() == 0 ==> delay_after(polls, ceiling) <= ceiling,
        ceiling >= FIRST_POLL_DELAY ==> delay_after(polls, ceiling) >= FIRST_POLL_DELAY,
    decreases polls.len(),
{
    if polls.len() > 0 {
        delay_keeps_to_ceiling(polls.drop_last(), ceiling);
    }
}

/// A poll that returns work starts the doubling anew, whatever came before it: after it and
/// `idle` empty polls the delay is that of a fetcher that has seen these empty polls alone.
pub proof fn work_starts_the_doubling_anew(before: Seq<nat>, fetched: nat, idle: nat, ceiling: nat)
    requires
        fetched > 0,
    ensures
        delay_after(before.push(fetched) + Seq::new(idle, |i: int| 0nat), ceiling) == idle_delay(
            idle,
            ceiling,
        ),
    decreases idle,
{
    let polls = before.push(fetched) + Seq::new(idle, |i: int| 0nat);
    if idle == 0 {
        assert(polls =~= before.push(fetched));
        assert(polls.last() == fetched);
    } else {
        let fewer = (idle - 1) as nat;
        work_starts_the_doubling_anew(before, fetched, fewer, ceiling);
        assert(polls.drop_last() =~= before.push(fetched) + Seq::new(fewer, |i: int| 0nat));
        assert(polls.last() == 0);
    }
}

/// An idle queue whose delay has met the ceiling keeps to it.
pub proof fn ceiling_is_kept(idle: nat, ceiling: nat)
    requires
        idle_delay(idle, ceiling) == ceiling,
    ensures
        idle_delay(idle + 1, ceiling) == ceiling,
{
}

/// How a poll sets the delay, whatever the delay was: work of any amount brings it down to one
/// second, and an empty poll makes it the lesser of twice the delay and the ceiling.
pub proof fn poll_sets_the_delay(delay: nat, ceiling: nat, fetched: nat)
    ensures
        fetched > 0 ==> next_delay(delay, ceiling, fetched) == 1_000_000_000,
        fetched == 0 ==> {
            &&& next_delay(delay, ceiling, fetched) <= ceiling
            &&& next_delay(delay, ceiling, fetched) <= delay + delay
            &&& next_delay(delay, ceiling, fetched) == ceiling || next_delay(
                delay,
                ceiling,
                fetched,
            ) == delay + delay
        },
{
}

/// The delay after `idle` empty polls is one second where there were none, and else the lesser of
/// `2^idle` seconds and the ceiling, however high that is.
pub proof fn idle_delay_is_bounded_by_the_ceiling_alone(idle: nat, ceiling: nat)
    ensures
        idle == 0 ==> idle_delay(idle, ceiling) == 1_000_000_000,
        idle > 0 && pow2(idle) * 1_000_000_000 <= ceiling ==> idle_delay(idle, ceiling) == pow2(
            idle,
        ) * 1_000_000_000,
        idle > 0 && pow2(idle) * 1_000_000_000 > ceiling ==> idle_delay(idle, ceiling) == ceiling,
{
    if idle > 0 {
        idle_delay_doubles_up_to_ceiling(idle, ceiling);
    }
}

} // verus!
