//! A single-instance token-bucket rate limiter.
//!
//! A [`bucket::TokenBucket`] holds a counter of tokens that refills at a
//! fixed rate and is drained by callers asking permission to do work. All
//! time is passed in as nanoseconds read from a monotonic clock, so the
//! whole decision logic is deterministic and verified: converting elapsed
//! time into ticks, recomputing the token count from the last checkpoint,
//! and deciding whether (and how long) a caller must wait for a requested
//! quantity of tokens.

pub mod bucket;
pub mod laws;
pub mod model;

pub use bucket::NewError;
pub use bucket::RateLimit;
pub use bucket::TokenBucket;
