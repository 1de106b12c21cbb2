//! The token-bucket state and its refill/withdraw arithmetic.
//!
//! A bucket holds up to `capacity` tokens; one token accrues every
//! `fill_rate` milliseconds. Refill is lazy: each operation takes the
//! current clock reading and projects how many whole tokens have accrued
//! since `last_fill`. `last_fill` advances only by whole multiples of
//! `fill_rate`, so fractional progress toward the next token is never lost
//! between operations, however frequent they are.

use vstd::prelude::*;

verus! {

use vstd::arithmetic::div_mod::{
    lemma_fundamental_div_mod,
    lemma_div_pos_is_pos,
    lemma_mod_bound,
};

/// The error kinds the bucket operations and the codec surface.
///
/// Refusal to grant tokens is not an error: a refused withdrawal returns
/// `Ok(0)`. `KeyNotFound` and `ClockUnavailable` are reported by the host
/// layer that resolves keys and reads the clock; they are declared here so
/// that every operation over buckets speaks one error language.
#[derive(Clone, Copy, Debug, PartialEq, Eq, Structural)]
pub enum BucketError {
    /// A caller-supplied domain value is out of range: a withdrawal of
    /// fewer than one token, or a creation with a non-positive fill rate.
    InvalidArgument,
    /// An operation addressed a key that holds no bucket.
    KeyNotFound,
    /// A stored byte sequence does not have the fixed encoded length.
    CorruptData,
    /// The host's clock could not be queried.
    ClockUnavailable,
}

/// Token-bucket state: the four persisted fields.
///
/// `value` and `last_fill` mutate over the bucket's lifetime; `capacity`
/// and `fill_rate` are fixed at creation.
#[derive(Clone, Copy, Debug, PartialEq, Eq, Structural)]
pub struct Bucket {
    /// Tokens currently available; `0 <= value <= capacity`.
    pub value: i64,
    /// Maximum tokens the bucket can hold; fixed at creation.
    pub capacity: i64,
    /// Milliseconds required to accrue one token; fixed at creation, `>= 1`.
    pub fill_rate: i64,
    /// Timestamp in milliseconds marking the most recent instant at which
    /// the stored `value` was correct; advances only by whole multiples of
    /// `fill_rate`.
    pub last_fill: i64,
}

impl Bucket {
    /// Well-formedness: the invariant every observable bucket satisfies.
    pub open spec fn wf(self) -> bool {
        &&& 0 <= self.value <= self.capacity
        &&& self.fill_rate >= 1
        &&& self.last_fill >= 0
    }

    /// Milliseconds elapsed since the last fill, clamped at zero so that a
    /// backward-skewed clock can never subtract tokens.
    pub open spec fn spec_elapsed(self, now: i64) -> int {
        if now > self.last_fill {
            now - self.last_fill
        } else {
            0
        }
    }

    /// Whole tokens accrued since the last fill; partial progress toward
    /// the next token is discarded by the truncating division.
    pub open spec fn spec_additions(self, now: i64) -> int {
        self.spec_elapsed(now) / (self.fill_rate as int)
    }

    /// The token count a refill at `now` would project, capped at capacity.
    pub open spec fn spec_projected_value(self, now: i64) -> int {
        if self.value + self.spec_additions(now) <= self.capacity {
            self.value + self.spec_additions(now)
        } else {
            self.capacity as int
        }
    }

    /// The fill timestamp a refill at `now` would project: `last_fill`
    /// advanced by exactly the milliseconds the accrued tokens account for,
    /// never snapped to `now` itself.
    pub open spec fn spec_projected_last_fill(self, now: i64) -> int {
        self.last_fill + self.spec_additions(now) * self.fill_rate
    }

    /// Creates a bucket: empty, with `last_fill` at the supplied creation
    /// instant. A non-positive fill rate makes refill arithmetic undefined
    /// and is rejected; no bucket is produced in that case.
    pub fn new(capacity: i64, fill_rate: i64, now: i64) -> (r: Result<Bucket, BucketError>)
        requires
            0 <= capacity,
            0 <= now,
        ensures
            fill_rate < 1 ==> r == Err::<Bucket, BucketError>(BucketError::InvalidArgument),
            fill_rate >= 1 ==> r == Ok::<Bucket, BucketError>(
                (Bucket { value: 0, capacity, fill_rate, last_fill: now }),
            ),
            r matches Ok(b) ==> b.wf(),
    {
        if fill_rate < 1 {
            Err(BucketError::InvalidArgument)
        } else {
            Ok(Bucket { value: 0, capacity, fill_rate, last_fill: now })
        }
    }

    /// Computes the refill projection at `time` without mutating anything:
    /// the token count the bucket would hold and the fill timestamp that
    /// accounts for exactly those tokens. Both withdraw and peek advance
    /// time through this single function.
    pub fn new_value(&self, time: i64) -> (r: (i64, i64))
        requires
            self.wf(),
        ensures
            r.0 == self.spec_projected_value(time),
            r.1 == self.spec_projected_last_fill(time),
            0 <= r.0 <= self.capacity,
            self.last_fill <= r.1,
    {
        proof {
            lemma_refill_bounds(*self, time);
        }
        let elapsed_ms: i64 = if time > self.last_fill {
            time - self.last_fill
        } else {
            0
        };
        let additions: i64 = elapsed_ms / self.fill_rate;
        let last_fill: i64 = self.last_fill + additions * self.fill_rate;
        let value: i64 = if additions <= self.capacity - self.value {
            self.value + additions
        } else {
            self.capacity
        };
        (value, last_fill)
    }

    /// Attempts to withdraw `tokens` tokens at clock reading `now`.
    ///
    /// Tokens are granted only when the projected count strictly exceeds
    /// the request: a withdrawal that would drain the bucket to exactly
    /// zero is refused. That threshold is deliberate, not an off-by-one.
    /// On a grant the bucket commits the projection minus the grant; on a
    /// refusal the projection is discarded and the bucket is left exactly
    /// as it was — refusal is a normal outcome, reported as `Ok(0)`, never
    /// an error. A request for fewer than one token is rejected without
    /// touching the bucket.
    pub fn take(&mut self, tokens: i64, now: i64) -> (r: Result<i64, BucketError>)
        requires
            old(self).wf(),
        ensures
            final(self).wf(),
            final(self).capacity == old(self).capacity,
            final(self).fill_rate == old(self).fill_rate,
            old(self).last_fill <= final(self).last_fill,
            tokens < 1 ==> r == Err::<i64, BucketError>(BucketError::InvalidArgument)
                && *final(self) == *old(self),
            tokens >= 1 && old(self).spec_projected_value(now) > tokens ==> {
                &&& r == Ok::<i64, BucketError>(tokens)
                &&& final(self).value == old(self).spec_projected_value(now) - tokens
                &&& final(self).last_fill == old(self).spec_projected_last_fill(now)
            },
            tokens >= 1 && old(self).spec_projected_value(now) <= tokens ==> r == Ok::<
                i64,
                BucketError,
            >(0) && *final(self) == *old(self),
    {
        if tokens < 1 {
            return Err(BucketError::InvalidArgument);
        }
        let (new_value, t) = self.new_value(now);
        if new_value > tokens {
            self.value = new_value - tokens;
            self.last_fill = t;
            Ok(tokens)
        } else {
            Ok(0)
        }
    }

    /// Reports the projected token count at clock reading `now` without
    /// mutating anything: the result is a pure function of the stored
    /// fields and `now`, so repeated peeks at the same instant agree and
    /// leave `last_fill` untouched.
    pub fn peek(&self, now: i64) -> (r: i64)
        requires
            self.wf(),
        ensures
            r == self.spec_projected_value(now),
            0 <= r <= self.capacity,
    {
        let (v, _) = self.new_value(now);
        v
    }
}

/// The refill projection keeps every bucket invariant: the projected token
/// count stays within `0 ..= capacity`, and the projected fill timestamp
/// never moves backward, never runs ahead of the clock reading, and stands
/// exactly a whole number of fill periods after `last_fill`.
pub proof fn lemma_refill_bounds(b: Bucket, now: i64)
    requires
        b.wf(),
    ensures
        0 <= b.spec_additions(now),
        b.spec_additions(now) * b.fill_rate <= b.spec_elapsed(now),
        b.last_fill <= b.spec_projected_last_fill(now),
        b.spec_projected_last_fill(now) <= if now > b.last_fill {
            now as int
        } else {
            b.last_fill as int
        },
        b.spec_projected_last_fill(now) == b.last_fill + b.spec_additions(now) * b.fill_rate,
        0 <= b.spec_projected_value(now) <= b.capacity,
{
    let e = b.spec_elapsed(now);
    let f = b.fill_rate as int;
    let q = e / f;
    lemma_div_pos_is_pos(e, f);
    lemma_fundamental_div_mod(e, f);
    lemma_mod_bound(e, f);
    assert(q * f == f * q) by (nonlinear_arith);
    assert(q * f == e - (e % f));
}

} // verus!
