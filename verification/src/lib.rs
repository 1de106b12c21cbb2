//! A token-bucket rate limiter with a fixed-layout binary persistence format.
//!
//! The bucket itself is a clock-driven integrator: tokens accumulate at a
//! fixed rate up to a fixed capacity and are withdrawn atomically. All
//! operations are pure functions of the stored fields and a caller-supplied
//! clock reading in milliseconds, so the host environment that owns the
//! stored bytes decides when and how the clock is read.

pub mod bucket;
pub mod codec;
