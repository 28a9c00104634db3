//! Lemmas about the bucket model.
//!
//! The first group supports the executable code: bounds on ticks, on the
//! refill recomputation and on the computed waits. The second group states
//! the laws of the limiter as a whole: what a fresh bucket reports, what `k`
//! idle intervals deposit, how `take_available` is bounded, when a take is
//! granted, and that a zero-bound `try_take` is exactly a non-blocking
//! check.

use crate::model::BucketModel;
use crate::model::div_ceil;
use vstd::arithmetic::div_mod::lemma_basic_div;
use vstd::arithmetic::div_mod::lemma_div_is_ordered;
use vstd::arithmetic::div_mod::lemma_div_pos_is_pos;
use vstd::arithmetic::div_mod::lemma_fundamental_div_mod_converse;
use vstd::arithmetic::mul::lemma_mul_nonnegative;
use vstd::math::min;
use vstd::prelude::*;

verus! {

/// A bucket never sees a negative tick: `now` at or past the epoch lands at
/// tick zero or later.
pub proof fn lemma_tick_nonneg(m: BucketModel, now: int)
    requires
        m.wf(),
        m.create_time <= now,
    ensures
        0 <= m.tick_of(now),
{
    lemma_div_pos_is_pos(now - m.create_time, m.fill_interval);
}

/// Ticks never run backwards: a later reading of the monotonic clock lands
/// at the same tick or a later one.
pub proof fn lemma_tick_monotone(m: BucketModel, now1: int, now2: int)
    requires
        m.wf(),
        now1 <= now2,
    ensures
        m.tick_of(now1) <= m.tick_of(now2),
{
    lemma_div_is_ordered(now1 - m.create_time, now2 - m.create_time, m.fill_interval);
}

/// Anywhere inside the `k`-th interval the tick count is exactly `k`.
pub proof fn lemma_tick_at(m: BucketModel, k: int, offset: int)
    requires
        m.wf(),
        0 <= offset < m.fill_interval,
    ensures
        m.tick_of(m.create_time + k * m.fill_interval + offset) == k,
{
    lemma_fundamental_div_mod_converse(
        k * m.fill_interval + offset,
        m.fill_interval,
        k,
        offset,
    );
}

/// Recomputing at a tick no earlier than the checkpoint keeps the bucket
/// well formed and leaves the token count between zero and the capacity:
/// any debt is wiped and the count is clamped.
pub proof fn lemma_adjusted_wf(m: BucketModel, tick: int)
    requires
        m.wf(),
        m.last_tick <= tick,
    ensures
        m.adjusted(tick).wf(),
        0 <= m.adjusted(tick).available <= m.capacity,
        m.adjusted(tick).last_tick == tick,
{
    if m.available < m.capacity {
        lemma_mul_nonnegative(tick - m.last_tick, m.quantum);
    }
}

/// The wait computed for a request within capacity always fits a `u64`
/// count of nanoseconds: the refill deadline lies at most
/// `ceil(capacity / quantum)` intervals past the epoch, which
/// well-formedness keeps representable.
pub proof fn lemma_wait_nanos_in_range(m: BucketModel, count: int, now: int)
    requires
        m.wf(),
        0 < count <= m.capacity,
        m.create_time <= now,
        m.last_tick <= m.tick_of(now),
    ensures
        0 <= m.wait_nanos(count, now) <= u64::MAX as int,
{
    let tick = m.tick_of(now);
    lemma_adjusted_wf(m, tick);
    let deficit = count - m.adjusted(tick).available;
    let q = m.quantum;
    let i = m.fill_interval;
    let end_tick = div_ceil(deficit, q);
    if deficit <= 0 {
        lemma_div_is_ordered(deficit + q - 1, q - 1, q);
        lemma_basic_div(q - 1, q);
        assert(i * end_tick <= 0) by (nonlinear_arith)
            requires
                end_tick <= 0,
                i > 0,
        ;
    } else {
        lemma_div_pos_is_pos(deficit + q - 1, q);
        lemma_div_is_ordered(deficit + q - 1, m.capacity + q - 1, q);
        let ceil_cap = div_ceil(m.capacity, q);
        assert(0 <= i * end_tick <= i * ceil_cap) by (nonlinear_arith)
            requires
                0 <= end_tick <= ceil_cap,
                i > 0,
        ;
    }
}

/// A freshly constructed bucket reports no available tokens until at least
/// one full fill interval has elapsed.
pub proof fn lemma_fresh_bucket_has_no_tokens(m: BucketModel, now: int)
    requires
        m.wf(),
        m.fresh(),
        m.create_time <= now < m.create_time + m.fill_interval,
    ensures
        m.available_spec(now).0 == 0,
{
    lemma_tick_at(m, 0, now - m.create_time);
}

/// After `k` full intervals elapse with no draws, the bucket reports
/// `min(capacity, k * quantum)` tokens.
pub proof fn lemma_refill_after_k_intervals(m: BucketModel, k: int, now: int)
    requires
        m.wf(),
        m.fresh(),
        0 <= k,
        m.create_time + k * m.fill_interval <= now,
        now < m.create_time + (k + 1) * m.fill_interval,
    ensures
        m.available_spec(now).0 == min(m.capacity, k * m.quantum),
{
    vstd::arithmetic::mul::lemma_mul_is_distributive_add_other_way(m.fill_interval, k, 1);
    lemma_tick_at(m, k, now - m.create_time - k * m.fill_interval);
}

/// `take_available` never hands out more than `available` would report at
/// the same instant, and hands out nothing whenever that count falls short
/// of the request.
pub proof fn lemma_take_available_bounded(m: BucketModel, count: int, now: int)
    requires
        m.wf(),
        0 <= count,
        m.create_time <= now,
        m.last_tick <= m.tick_of(now),
    ensures
        m.take_available_spec(count, now).0 <= m.available_spec(now).0,
        m.available_spec(now).0 < count ==> m.take_available_spec(count, now).0 == 0,
{
    lemma_adjusted_wf(m, m.tick_of(now));
}

/// With an unbounded wait allowed, a take is granted exactly when the
/// request does not exceed the capacity.
pub proof fn lemma_take_granted_iff_within_capacity(m: BucketModel, count: int, now: int)
    requires
        m.wf(),
        0 <= count,
        m.create_time <= now,
        m.last_tick <= m.tick_of(now),
    ensures
        m.inner_take_spec(count, now, u64::MAX as int).0 is Some <==> count <= m.capacity,
{
    if 0 < count <= m.capacity {
        lemma_wait_nanos_in_range(m, count, now);
    }
}

/// A `try_take` allowed no wait is exactly a non-blocking check: it
/// succeeds precisely when a take would be granted without any wait, and
/// when it succeeds it leaves the bucket exactly as that take would.
pub proof fn lemma_try_take_zero_wait_is_nonblocking(
    m: BucketModel,
    count: int,
    now: int,
    max_wait: int,
)
    requires
        m.wf(),
        0 <= count,
        0 <= max_wait,
        m.create_time <= now,
        m.last_tick <= m.tick_of(now),
    ensures
        m.inner_take_spec(count, now, 0).0 is Some <==> m.inner_take_spec(
            count,
            now,
            max_wait,
        ).0 == Some(0int),
        m.inner_take_spec(count, now, 0).0 is Some ==> m.inner_take_spec(count, now, 0)
            == m.inner_take_spec(count, now, max_wait),
{
}

} // verus!
