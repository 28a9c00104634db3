//! The executable token bucket and its capability interface.
//!
//! Every operation takes `now`, a nanosecond reading of a monotonic clock,
//! and is a pure state transition specified against [`BucketModel`]. The
//! host supplies the clock, the mutual-exclusion guard for shared use, and
//! the sleeping of returned waits; the decisions themselves are all here.

use crate::laws::lemma_take_granted_iff_within_capacity;
use crate::model::BucketModel;
use crate::model::NANOS_PER_SEC;
use crate::model::div_ceil;
use vstd::arithmetic::div_mod::lemma_basic_div;
use vstd::arithmetic::div_mod::lemma_div_is_ordered;
use vstd::arithmetic::div_mod::lemma_div_nonincreasing;
use vstd::arithmetic::div_mod::lemma_div_plus_one;
use vstd::arithmetic::div_mod::lemma_div_pos_is_pos;
use vstd::arithmetic::div_mod::lemma_fundamental_div_mod;
use vstd::arithmetic::div_mod::lemma_mod_pos_bound;
use vstd::prelude::*;

verus! {

/// Why construction was refused.
#[derive(Clone, Copy, Debug, PartialEq, Eq, Structural)]
pub enum NewError {
    /// `capacity` was zero.
    ZeroCapacity,
    /// `quantum` was zero.
    ZeroQuantum,
    /// `fill_interval` was shorter than one second.
    ShortFillInterval,
}

/// A token-bucket rate limiter.
///
/// The fields mirror [`BucketModel`] one for one; `capacity`, `quantum`,
/// `fill_interval` and `create_time` are fixed after construction, while
/// `available_tokens` and `last_tick` change under the operations. For use
/// from several threads the host wraps the bucket in its own
/// mutual-exclusion guard, so each operation here is one atomic transition.
#[derive(Debug)]
pub struct TokenBucket {
    /// Most tokens the bucket can ever hold; positive.
    pub capacity: u64,
    /// Tokens deposited per elapsed tick; positive.
    pub quantum: u64,
    /// Length of one tick in nanoseconds; at least one second.
    pub fill_interval: u64,
    /// Tokens currently available; transiently negative when a granted take
    /// borrows against ticks that have not elapsed yet.
    pub available_tokens: i64,
    /// Monotonic nanosecond timestamp captured at construction.
    pub create_time: u64,
    /// Tick index at which `available_tokens` was last recomputed.
    pub last_tick: u64,
}

/// The capability interface of a rate limiter.
///
/// Each operation takes the current monotonic time, never earlier than the
/// construction time and never presenting a tick earlier than the last
/// recomputation (the clock is monotonic, so successive readings satisfy
/// this by [`crate::laws::lemma_tick_monotone`]).
///
/// `take` and `try_take` return the nanoseconds the caller must still sleep
/// before the granted tokens are covered; the debit itself is already
/// committed, so other callers immediately see the reduced count while this
/// one waits. `Err(())` means the request was refused and, beyond the
/// recomputation, nothing was debited.
pub trait RateLimit {
    /// The ghost bucket state that the contracts speak of.
    spec fn model(&self) -> BucketModel;

    /// Recompute the token count for `now` and return it; never negative.
    fn available(&mut self, now: u64) -> (r: u64)
        requires
            old(self).model().wf(),
            old(self).model().create_time <= now as int,
            old(self).model().last_tick <= old(self).model().tick_of(now as int),
        ensures
            r as int == old(self).model().available_spec(now as int).0,
            final(self).model() == old(self).model().available_spec(now as int).1,
            final(self).model().wf(),
            old(self).model().last_tick <= final(self).model().last_tick,
    ;

    /// The blocking take: commit a debit of `count` tokens, borrowing
    /// against future ticks without bound, and return the wait still to be
    /// slept. Granted exactly when `count` does not exceed the capacity.
    fn take(&mut self, count: u64, now: u64) -> (r: Result<u64, ()>)
        requires
            old(self).model().wf(),
            old(self).model().create_time <= now as int,
            old(self).model().last_tick <= old(self).model().tick_of(now as int),
        ensures
            (match r {
                Ok(w) => old(self).model().inner_take_spec(
                    count as int,
                    now as int,
                    u64::MAX as int,
                ).0 == Some(w as int),
                Err(_) => old(self).model().inner_take_spec(
                    count as int,
                    now as int,
                    u64::MAX as int,
                ).0 is None,
            }),
            final(self).model() == old(self).model().inner_take_spec(
                count as int,
                now as int,
                u64::MAX as int,
            ).1,
            r is Ok <==> count as int <= old(self).model().capacity,
            final(self).model().wf(),
            old(self).model().last_tick <= final(self).model().last_tick,
    ;

    /// The best-effort take: when the recomputed count covers `count`, drain
    /// the bucket and return the whole previous count; otherwise take
    /// nothing and return zero.
    fn take_available(&mut self, count: u64, now: u64) -> (r: u64)
        requires
            old(self).model().wf(),
            old(self).model().create_time <= now as int,
            old(self).model().last_tick <= old(self).model().tick_of(now as int),
        ensures
            r as int == old(self).model().take_available_spec(count as int, now as int).0,
            final(self).model() == old(self).model().take_available_spec(
                count as int,
                now as int,
            ).1,
            final(self).model().wf(),
            old(self).model().last_tick <= final(self).model().last_tick,
    ;

    /// The bounded-wait take: as `take`, but the debit is committed only
    /// when the needed wait is within `max_wait` nanoseconds.
    fn try_take(&mut self, count: u64, max_wait: u64, now: u64) -> (r: Result<u64, ()>)
        requires
            old(self).model().wf(),
            old(self).model().create_time <= now as int,
            old(self).model().last_tick <= old(self).model().tick_of(now as int),
        ensures
            (match r {
                Ok(w) => old(self).model().inner_take_spec(
                    count as int,
                    now as int,
                    max_wait as int,
                ).0 == Some(w as int),
                Err(_) => old(self).model().inner_take_spec(
                    count as int,
                    now as int,
                    max_wait as int,
                ).0 is None,
            }),
            final(self).model() == old(self).model().inner_take_spec(
                count as int,
                now as int,
                max_wait as int,
            ).1,
            final(self).model().wf(),
            old(self).model().last_tick <= final(self).model().last_tick,
    ;
}

impl TokenBucket {
    /// Construct a bucket with no tokens, checkpointed at tick zero.
    ///
    /// `create_time` is the monotonic nanosecond reading taken by the host
    /// at construction. Construction is refused exactly when `capacity` or
    /// `quantum` is zero or `fill_interval` is shorter than one second; the
    /// preconditions only keep the configuration within machine limits, so
    /// that token counts fit an `i64` and every refill deadline fits a
    /// `u64` of nanoseconds.
    pub fn new(capacity: u64, quantum: u64, fill_interval: u64, create_time: u64) -> (r: Result<
        TokenBucket,
        NewError,
    >)
        requires
            capacity as int <= i64::MAX as int,
            quantum as int <= i64::MAX as int,
            quantum > 0 ==> create_time as int + fill_interval as int * div_ceil(
                capacity as int,
                quantum as int,
            ) <= u64::MAX as int,
        ensures
            (match r {
                Ok(b) => {
                    &&& capacity > 0 && quantum > 0 && fill_interval >= NANOS_PER_SEC
                    &&& b.model() == (BucketModel {
                        capacity: capacity as int,
                        quantum: quantum as int,
                        fill_interval: fill_interval as int,
                        create_time: create_time as int,
                        available: 0,
                        last_tick: 0,
                    })
                    &&& b.model().wf()
                    &&& b.model().fresh()
                },
                Err(e) => {
                    &&& (capacity == 0 || quantum == 0 || fill_interval < NANOS_PER_SEC)
                    &&& e == (if capacity == 0 {
                        NewError::ZeroCapacity
                    } else if quantum == 0 {
                        NewError::ZeroQuantum
                    } else {
                        NewError::ShortFillInterval
                    })
                },
            }),
    {
        if capacity == 0 {
            return Err(NewError::ZeroCapacity);
        }
        if quantum == 0 {
            return Err(NewError::ZeroQuantum);
        }
        if fill_interval < NANOS_PER_SEC {
            return Err(NewError::ShortFillInterval);
        }
        Ok(
            TokenBucket {
                capacity,
                quantum,
                fill_interval,
                available_tokens: 0,
                create_time,
                last_tick: 0,
            },
        )
    }

    /// Whole fill intervals elapsed between construction and `now`.
    pub fn current_tick(&self, now: u64) -> (r: u64)
        requires
            self.model().wf(),
            self.create_time <= now,
        ensures
            r as int == self.model().tick_of(now as int),
    {
        (now - self.create_time) / self.fill_interval
    }

    /// Recompute the token count for `tick`.
    ///
    /// This is the checkpoint policy of [`BucketModel::adjusted`]: a
    /// saturated bucket only advances the checkpoint, any other count —
    /// debt included — is overwritten with the deposit earned since the
    /// checkpoint, clamped to the capacity.
    pub fn adjust_available_tokens(&mut self, tick: u64)
        requires
            old(self).model().wf(),
            old(self).last_tick <= tick,
        ensures
            final(self).model() == old(self).model().adjusted(tick as int),
            final(self).model().wf(),
            0 <= final(self).available_tokens <= final(self).capacity,
            old(self).last_tick <= final(self).last_tick,
    {
        let last_tick = self.last_tick;
        self.last_tick = tick;
        if self.available_tokens >= self.capacity as i64 {
            return ;
        }
        let delta: u64 = tick - last_tick;
        proof {
            lemma_fundamental_div_mod(self.capacity as int, self.quantum as int);
            lemma_mod_pos_bound(self.capacity as int, self.quantum as int);
        }
        if delta > self.capacity / self.quantum {
            proof {
                let c = self.capacity as int;
                let q = self.quantum as int;
                let f = c / q;
                let r = c % q;
                assert(delta as int * q >= c) by (nonlinear_arith)
                    requires
                        delta as int >= f + 1,
                        c == q * f + r,
                        0 <= r < q,
                        q > 0,
                ;
            }
            self.available_tokens = self.capacity as i64;
        } else {
            proof {
                let c = self.capacity as int;
                let q = self.quantum as int;
                let f = c / q;
                let r = c % q;
                assert(0 <= delta as int * q <= c) by (nonlinear_arith)
                    requires
                        0 <= delta as int <= f,
                        c == q * f + r,
                        0 <= r,
                        q > 0,
                ;
            }
            let fresh: u64 = delta * self.quantum;
            self.available_tokens = fresh as i64;
        }
    }

    /// The shared decision routine for the blocking and bounded-wait takes.
    ///
    /// Nothing is asked for nothing; more than `capacity` can never be
    /// satisfied; otherwise the tokens are recomputed for `now` and the
    /// debit is committed — possibly into debt — exactly when the wait to
    /// the refill deadline is within `max_wait`. `Ok` carries that wait in
    /// nanoseconds; on `Err` nothing beyond the recomputation has changed.
    pub fn inner_take(&mut self, count: u64, now: u64, max_wait: u64) -> (r: Result<u64, ()>)
        requires
            old(self).model().wf(),
            old(self).create_time <= now,
            old(self).model().last_tick <= old(self).model().tick_of(now as int),
        ensures
            (match r {
                Ok(w) => old(self).model().inner_take_spec(
                    count as int,
                    now as int,
                    max_wait as int,
                ).0 == Some(w as int),
                Err(_) => old(self).model().inner_take_spec(
                    count as int,
                    now as int,
                    max_wait as int,
                ).0 is None,
            }),
            final(self).model() == old(self).model().inner_take_spec(
                count as int,
                now as int,
                max_wait as int,
            ).1,
            final(self).model().wf(),
            old(self).model().last_tick <= final(self).model().last_tick,
    {
        if count == 0 {
            return Ok(0);
        }
        if count > self.capacity {
            return Err(());
        }
        let tick = self.current_tick(now);
        self.adjust_available_tokens(tick);
        let new_available: i64 = self.available_tokens - count as i64;
        if new_available > 0 {
            self.available_tokens = new_available;
            return Ok(0);
        }
        let deficit: u64 = (-new_available) as u64;
        let end_tick: u64 = if deficit == 0 {
            proof {
                lemma_basic_div(self.quantum as int - 1, self.quantum as int);
            }
            0
        } else {
            proof {
                lemma_div_plus_one(deficit as int - 1, self.quantum as int);
                lemma_div_pos_is_pos(deficit as int - 1, self.quantum as int);
                lemma_div_nonincreasing(deficit as int - 1, self.quantum as int);
            }
            (deficit - 1) / self.quantum + 1
        };
        proof {
            lemma_div_is_ordered(
                deficit as int + self.quantum as int - 1,
                self.capacity as int + self.quantum as int - 1,
                self.quantum as int,
            );
            let i = self.fill_interval as int;
            let ceil_cap = div_ceil(self.capacity as int, self.quantum as int);
            assert(0 <= i * end_tick as int <= i * ceil_cap) by (nonlinear_arith)
                requires
                    0 <= end_tick as int <= ceil_cap,
                    i > 0,
            ;
        }
        let end_time: u64 = self.create_time + self.fill_interval * end_tick;
        let wait: u64 = if end_time >= now {
            end_time - now
        } else {
            0
        };
        if wait <= max_wait {
            self.available_tokens = new_available;
            Ok(wait)
        } else {
            Err(())
        }
    }
}

impl RateLimit for TokenBucket {
    open spec fn model(&self) -> BucketModel {
        BucketModel {
            capacity: self.capacity as int,
            quantum: self.quantum as int,
            fill_interval: self.fill_interval as int,
            create_time: self.create_time as int,
            available: self.available_tokens as int,
            last_tick: self.last_tick as int,
        }
    }

    fn available(&mut self, now: u64) -> (r: u64) {
        let tick = self.current_tick(now);
        self.adjust_available_tokens(tick);
        self.available_tokens as u64
    }

    fn take(&mut self, count: u64, now: u64) -> (r: Result<u64, ()>) {
        proof {
            lemma_take_granted_iff_within_capacity(self.model(), count as int, now as int);
        }
        self.inner_take(count, now, u64::MAX)
    }

    fn take_available(&mut self, count: u64, now: u64) -> (r: u64) {
        if count == 0 {
            return 0;
        }
        let tick = self.current_tick(now);
        self.adjust_available_tokens(tick);
        if self.available_tokens as u64 >= count {
            let real_count = self.available_tokens;
            self.available_tokens = 0;
            real_count as u64
        } else {
            0
        }
    }

    fn try_take(&mut self, count: u64, max_wait: u64, now: u64) -> (r: Result<u64, ()>) {
        self.inner_take(count, now, max_wait)
    }
}

} // verus!
