//! Mathematical model of the token bucket.
//!
//! A [`BucketModel`] is the ghost state of a bucket: unbounded integers for
//! the configuration, the token count and the tick checkpoint. Every
//! operation of the executable bucket is specified as a pure transition on
//! this model, written out by the spec functions below.

use vstd::prelude::*;

verus! {

/// Number of nanoseconds in one second; the shortest fill interval allowed.
pub const NANOS_PER_SEC: u64 = 1_000_000_000;

/// Ceiling division, `ceil(a / b)`, for `a >= 0` and `b > 0`.
pub open spec fn div_ceil(a: int, b: int) -> int {
    (a + b - 1) / b
}

/// The ghost state of a token bucket.
///
/// Times (`create_time`, and every `now` argument) are nanoseconds on a
/// monotonic clock; a *tick* is a whole fill interval elapsed since
/// `create_time`. `available` is signed: a negative value is a committed
/// debt, a take that was granted by borrowing against ticks that have not
/// elapsed yet.
pub struct BucketModel {
    /// Most tokens the bucket can ever hold; fixed, positive.
    pub capacity: int,
    /// Tokens deposited per elapsed tick; fixed, positive.
    pub quantum: int,
    /// Length of one tick in nanoseconds; fixed, at least one second.
    pub fill_interval: int,
    /// Monotonic timestamp captured at construction; the tick epoch.
    pub create_time: int,
    /// Tokens currently available; may be transiently negative.
    pub available: int,
    /// Tick index at which `available` was last recomputed.
    pub last_tick: int,
}

impl BucketModel {
    /// Well-formedness: positive configuration within machine limits, the
    /// token count within `[-capacity, capacity]`, and every reachable
    /// refill deadline (`create_time + fill_interval * ceil(deficit /
    /// quantum)` with `deficit <= capacity`) representable in a `u64`.
    pub open spec fn wf(self) -> bool {
        &&& 0 < self.capacity <= i64::MAX as int
        &&& 0 < self.quantum <= i64::MAX as int
        &&& NANOS_PER_SEC as int <= self.fill_interval <= u64::MAX as int
        &&& 0 <= self.create_time
        &&& self.create_time + self.fill_interval * div_ceil(self.capacity, self.quantum)
            <= u64::MAX as int
        &&& -self.capacity <= self.available <= self.capacity
        &&& 0 <= self.last_tick
    }

    /// The bucket as freshly constructed: no tokens, checkpoint at the epoch.
    pub open spec fn fresh(self) -> bool {
        self.available == 0 && self.last_tick == 0
    }

    /// Whole fill intervals elapsed between `create_time` and `now`.
    pub open spec fn tick_of(self, now: int) -> int {
        (now - self.create_time) / self.fill_interval
    }

    /// The recompute-from-checkpoint refill policy.
    ///
    /// A saturated bucket is left as it is; otherwise the token count is
    /// *overwritten* with the deposit earned since the checkpoint,
    /// `(tick - last_tick) * quantum`, clamped to `capacity`. Progress made
    /// inside a partial tick is discarded, and any debt is wiped, exactly as
    /// the policy prescribes. The checkpoint advances to `tick` either way.
    pub open spec fn adjusted(self, tick: int) -> BucketModel {
        if self.available >= self.capacity {
            BucketModel { last_tick: tick, ..self }
        } else {
            let fresh = (tick - self.last_tick) * self.quantum;
            BucketModel {
                available: if fresh >= self.capacity {
                    self.capacity
                } else {
                    fresh
                },
                last_tick: tick,
                ..self
            }
        }
    }

    /// Result and next state of `available`: recompute, then read.
    pub open spec fn available_spec(self, now: int) -> (int, BucketModel) {
        let m = self.adjusted(self.tick_of(now));
        (m.available, m)
    }

    /// Nanoseconds a caller asking for `count` tokens at `now` must wait:
    /// the deficit left after recomputation becomes covered at tick
    /// `ceil(deficit / quantum)`, counted from the epoch. A deadline already
    /// in the past means no wait at all.
    pub open spec fn wait_nanos(self, count: int, now: int) -> int {
        let m = self.adjusted(self.tick_of(now));
        let deficit = count - m.available;
        let end_tick = div_ceil(deficit, self.quantum);
        let end_time = self.create_time + self.fill_interval * end_tick;
        if end_time >= now {
            end_time - now
        } else {
            0
        }
    }

    /// The shared take decision: the granted wait (`None` when refused) and
    /// the next state.
    ///
    /// Nothing is asked for nothing; more than `capacity` can never be
    /// satisfied; otherwise the debit is committed — possibly into debt —
    /// exactly when the needed wait is within `max_wait`, and a refusal
    /// leaves the recomputed state undebited.
    pub open spec fn inner_take_spec(self, count: int, now: int, max_wait: int) -> (
        Option<int>,
        BucketModel,
    ) {
        if count == 0 {
            (Some(0int), self)
        } else if count > self.capacity {
            (None::<int>, self)
        } else {
            let m = self.adjusted(self.tick_of(now));
            let new_avail = m.available - count;
            if new_avail > 0 {
                (Some(0int), BucketModel { available: new_avail, ..m })
            } else {
                let wait = self.wait_nanos(count, now);
                if wait <= max_wait {
                    (Some(wait), BucketModel { available: new_avail, ..m })
                } else {
                    (None::<int>, m)
                }
            }
        }
    }

    /// Result and next state of `take_available`: when the recomputed count
    /// covers the request the bucket is drained to zero and the *whole*
    /// previous count is returned; otherwise nothing is taken.
    pub open spec fn take_available_spec(self, count: int, now: int) -> (int, BucketModel) {
        if count == 0 {
            (0int, self)
        } else {
            let m = self.adjusted(self.tick_of(now));
            if m.available >= count {
                (m.available, BucketModel { available: 0, ..m })
            } else {
                (0int, m)
            }
        }
    }
}

} // verus!
