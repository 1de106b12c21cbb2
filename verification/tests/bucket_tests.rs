use token_bucket::bucket::{Bucket, BucketError};

#[test]
fn new_initializes_empty_at_creation_instant() {
    let b = Bucket::new(10, 1000, 5).unwrap();
    assert_eq!(b.value, 0);
    assert_eq!(b.capacity, 10);
    assert_eq!(b.fill_rate, 1000);
    assert_eq!(b.last_fill, 5);
}

#[test]
fn new_rejects_zero_fill_rate() {
    let r = Bucket::new(10, 0, 0);
    assert_eq!(r, Err(BucketError::InvalidArgument));
}

#[test]
fn new_rejects_negative_fill_rate() {
    let r = Bucket::new(10, -250, 0);
    assert_eq!(r, Err(BucketError::InvalidArgument));
}

#[test]
fn take_rejects_non_positive_token_counts() {
    let mut b = Bucket::new(10, 1000, 0).unwrap();
    let before = b;
    assert_eq!(b.take(0, 5000), Err(BucketError::InvalidArgument));
    assert_eq!(b, before);
    assert_eq!(b.take(-4, 5000), Err(BucketError::InvalidArgument));
    assert_eq!(b, before);
}

#[test]
fn strict_threshold_scenario() {
    // capacity 10, one token per second, created at t = 0.
    let mut b = Bucket::new(10, 1000, 0).unwrap();

    // t = 500: no whole token has accrued yet; 0 > 1 is false.
    assert_eq!(b.take(1, 500), Ok(0));
    assert_eq!(b.value, 0);
    assert_eq!(b.last_fill, 0);

    // t = 1500: one token accrued, but 1 > 1 is false — exact depletion
    // is refused by the strictly-greater-than rule.
    assert_eq!(b.take(1, 1500), Ok(0));
    assert_eq!(b.value, 0);
    assert_eq!(b.last_fill, 0);

    // t = 2500: two tokens accrued, 2 > 1 grants; last_fill advances to
    // 2000, not 2500, keeping the half-period of progress.
    assert_eq!(b.take(1, 2500), Ok(1));
    assert_eq!(b.value, 1);
    assert_eq!(b.last_fill, 2000);
}

#[test]
fn peek_caps_projection_at_capacity() {
    // A full bucket left idle for ages still reports exactly its capacity.
    let b = Bucket {
        value: 5,
        capacity: 5,
        fill_rate: 100,
        last_fill: 0,
    };
    assert_eq!(b.peek(1_000_000), 5);
}

#[test]
fn peek_is_stable_at_one_instant() {
    let b = Bucket {
        value: 2,
        capacity: 9,
        fill_rate: 300,
        last_fill: 1200,
    };
    let first = b.peek(2800);
    let second = b.peek(2800);
    assert_eq!(first, second);
    assert_eq!(b.last_fill, 1200);
    assert_eq!(b.value, 2);
}

#[test]
fn refused_take_leaves_state_unchanged() {
    let mut b = Bucket {
        value: 3,
        capacity: 8,
        fill_rate: 1000,
        last_fill: 4000,
    };
    let before = b;
    // At t = 4999 nothing has accrued; 3 > 7 is false, so refusal.
    assert_eq!(b.take(7, 4999), Ok(0));
    assert_eq!(b, before);
}

#[test]
fn granted_take_commits_projection_minus_grant() {
    let mut b = Bucket::new(10, 100, 0).unwrap();
    // t = 1050: ten whole tokens accrued, capped at capacity 10.
    assert_eq!(b.take(3, 1050), Ok(3));
    assert_eq!(b.value, 7);
    // Ten tokens account for exactly 1000 ms.
    assert_eq!(b.last_fill, 1000);
}

#[test]
fn backward_clock_never_subtracts_tokens() {
    let mut b = Bucket {
        value: 4,
        capacity: 8,
        fill_rate: 100,
        last_fill: 9000,
    };
    // The clock reads earlier than last_fill: elapsed clamps to zero.
    assert_eq!(b.peek(1000), 4);
    assert_eq!(b.take(2, 1000), Ok(2));
    assert_eq!(b.value, 2);
    assert_eq!(b.last_fill, 9000);
}

#[test]
fn value_stays_within_bounds_across_operations() {
    let mut b = Bucket::new(6, 50, 0).unwrap();
    let instants = [0, 10, 49, 50, 125, 125, 4000, 4001, 4002, 10_000];
    for (i, now) in instants.iter().enumerate() {
        let tokens = (i as i64 % 3) + 1;
        let granted = b.take(tokens, *now).unwrap();
        assert!(granted == 0 || granted == tokens);
        assert!(0 <= b.value && b.value <= b.capacity);
        let seen = b.peek(*now);
        assert!(0 <= seen && seen <= b.capacity);
    }
}

#[test]
fn last_fill_never_decreases_across_operations() {
    let mut b = Bucket::new(6, 50, 0).unwrap();
    let mut previous = b.last_fill;
    let instants = [0, 10, 49, 50, 125, 60, 4000, 4001, 4002, 10_000];
    for now in instants.iter() {
        b.take(2, *now).unwrap();
        assert!(b.last_fill >= previous);
        previous = b.last_fill;
        b.peek(*now);
        assert_eq!(b.last_fill, previous);
    }
}

#[test]
fn last_fill_advances_in_whole_fill_periods() {
    let mut b = Bucket::new(100, 7, 21).unwrap();
    let instants = [22, 30, 100, 1234, 5000];
    for now in instants.iter() {
        let before = b.last_fill;
        b.take(1, *now).unwrap();
        assert_eq!((b.last_fill - before) % 7, 0);
    }
}
