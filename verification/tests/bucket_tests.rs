use token_bucket::NewError;
use token_bucket::RateLimit;
use token_bucket::TokenBucket;

const SEC: u64 = 1_000_000_000;

#[test]
fn take_available_test() {
    let mut b = TokenBucket::new(1000, 100, SEC, 0).unwrap();
    assert_eq!(100, b.take_available(100, SEC));
    assert_eq!(100, b.take_available(100, 2 * SEC));
}

#[test]
fn try_take_test() {
    let mut b = TokenBucket::new(1000, 100, SEC, 0).unwrap();
    assert!(b.try_take(100, 0, 0).is_err());
    assert!(b.try_take(100, 0, SEC).is_ok());
    assert!(b.try_take(100, 0, 2 * SEC).is_ok());

    assert!(b.try_take(100, SEC, 2 * SEC).is_ok());
}

#[test]
fn take_test() {
    let mut b = TokenBucket::new(1000, 100, SEC, 0).unwrap();
    assert_eq!(Ok(2 * SEC), b.take(200, 0));
}

#[test]
fn available_test() {
    let mut b = TokenBucket::new(1000, 100, SEC, 0).unwrap();
    assert_eq!(100, b.available(SEC));
}

#[test]
fn time_test() {
    let b = TokenBucket::new(100000, 1, SEC, 0).unwrap();
    assert_eq!(1, b.current_tick(SEC));
}

#[test]
fn adjust_test() {
    let mut b = TokenBucket::new(100000, 1, SEC, 0).unwrap();
    assert_eq!(0, b.current_tick(0));
    assert_eq!(1, b.current_tick(SEC));
    assert_eq!(100, b.current_tick(100 * SEC));

    b.adjust_available_tokens(100);
    assert_eq!(100, b.available_tokens);
    b.adjust_available_tokens(200);
    assert_eq!(100, b.available_tokens);
    b.adjust_available_tokens(400);
    assert_eq!(200, b.available_tokens);
    b.adjust_available_tokens(10000);
    assert_eq!(9600, b.available_tokens);
}

#[test]
fn new_test() {
    assert!(TokenBucket::new(0, 1, SEC, 0).is_err());
    assert!(TokenBucket::new(1, 0, SEC, 0).is_err());
    assert!(TokenBucket::new(1, 1, 0, 0).is_err());
}

#[test]
fn new_error_variants() {
    assert_eq!(
        NewError::ZeroCapacity,
        TokenBucket::new(0, 1, SEC, 0).unwrap_err()
    );
    assert_eq!(
        NewError::ZeroQuantum,
        TokenBucket::new(1, 0, SEC, 0).unwrap_err()
    );
    assert_eq!(
        NewError::ShortFillInterval,
        TokenBucket::new(1, 1, SEC - 1, 0).unwrap_err()
    );
    // Zero capacity is reported first.
    assert_eq!(
        NewError::ZeroCapacity,
        TokenBucket::new(0, 0, 0, 0).unwrap_err()
    );
}

#[test]
fn fresh_bucket_is_empty_until_first_interval() {
    let mut b = TokenBucket::new(1000, 100, SEC, 0).unwrap();
    assert_eq!(0, b.available(0));
    assert_eq!(0, b.available(SEC - 1));
    assert_eq!(100, b.available(SEC));
}

#[test]
fn refill_after_k_intervals() {
    let mut b = TokenBucket::new(1000, 100, SEC, 0).unwrap();
    assert_eq!(300, b.available(3 * SEC));
    // A fresh reading far in the future is clamped to the capacity.
    let mut c = TokenBucket::new(1000, 100, SEC, 0).unwrap();
    assert_eq!(1000, c.available(100 * SEC));
}

#[test]
fn take_available_drains_everything_when_satisfiable() {
    let mut b = TokenBucket::new(1000, 100, SEC, 0).unwrap();
    // 300 tokens accrued; a request for 50 drains and returns all 300.
    assert_eq!(300, b.take_available(50, 3 * SEC));
    assert_eq!(0, b.available_tokens);
}

#[test]
fn take_available_returns_zero_when_short() {
    let mut b = TokenBucket::new(1000, 100, SEC, 0).unwrap();
    // One interval deposited 100 tokens; 200 cannot be served.
    assert_eq!(0, b.take_available(200, SEC));
    // The recomputation stands, but nothing was debited.
    assert_eq!(100, b.available_tokens);
    assert_eq!(0, b.take_available(0, SEC));
}

#[test]
fn take_more_than_capacity_is_refused_immediately() {
    let mut b = TokenBucket::new(1000, 100, SEC, 0).unwrap();
    assert!(b.take(1001, 0).is_err());
    assert_eq!(Ok(10 * SEC), b.take(1000, 0));
}

#[test]
fn take_zero_succeeds_untouched() {
    let mut b = TokenBucket::new(1000, 100, SEC, 0).unwrap();
    assert_eq!(Ok(0), b.take(0, 0));
    assert!(b.try_take(0, 0, 0).is_ok());
    assert_eq!(0, b.available_tokens);
    assert_eq!(0, b.last_tick);
}

#[test]
fn committed_take_borrows_against_future_ticks() {
    let mut b = TokenBucket::new(1000, 100, SEC, 0).unwrap();
    assert_eq!(Ok(2 * SEC), b.take(200, 0));
    assert_eq!(-200, b.available_tokens);
    // The next recomputation wipes the debt (checkpoint policy).
    assert_eq!(0, b.available(0));
}

#[test]
fn refused_try_take_leaves_no_partial_debit() {
    let mut b = TokenBucket::new(1000, 100, SEC, 0).unwrap();
    // 100 tokens accrued; 500 would need three more intervals, over the bound.
    assert!(b.try_take(500, 0, SEC).is_err());
    assert_eq!(100, b.available_tokens);
    assert_eq!(1, b.last_tick);
}

#[test]
fn try_take_with_bound_accepts_exact_wait() {
    let mut b = TokenBucket::new(1000, 100, SEC, 0).unwrap();
    // A fresh bucket needs a full interval for 100 tokens.
    assert_eq!(Ok(SEC), b.try_take(100, SEC, 0));
    assert!(b.try_take(100, SEC - 1, 0).is_err());
}

#[test]
fn checkpoint_policy_discards_partial_progress() {
    let mut b = TokenBucket::new(1000, 100, SEC, 0).unwrap();
    assert_eq!(100, b.available(SEC));
    // Polling again within the same tick resets the count to zero.
    assert_eq!(0, b.available(SEC));
    assert_eq!(0, b.available(2 * SEC - 1));
    assert_eq!(100, b.available(2 * SEC));
}

#[test]
fn largest_configuration_still_works() {
    let cap = i64::MAX as u64;
    let mut b = TokenBucket::new(cap, cap, SEC, 0).unwrap();
    assert_eq!(0, b.available(0));
    assert_eq!(Ok(SEC), b.take(cap, 0));
    assert_eq!(cap, b.available(SEC));
}

#[test]
fn saturated_bucket_only_advances_checkpoint() {
    let mut b = TokenBucket::new(1000, 100, SEC, 0).unwrap();
    assert_eq!(1000, b.available(20 * SEC));
    b.adjust_available_tokens(21);
    assert_eq!(1000, b.available_tokens);
    assert_eq!(21, b.last_tick);
}
