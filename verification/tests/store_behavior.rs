use rate_limiter::errors::ModelError;
use rate_limiter::store::Store;

#[test]
fn first_increment_on_fresh_key_counts_one() {
    let mut s = Store::new();
    let key = String::from("route_caller");
    assert!(s.inc_below_limit_at(&key, 1, 60, 100).is_ok());
    let got = s.get(&key).unwrap();
    assert_eq!(got.count, 1);
    assert_eq!(got.ttl, Some(160));
}

#[test]
fn increments_within_limit_accumulate() {
    let mut s = Store::new();
    let key = String::from("k");
    for i in 1..=5_i64 {
        assert!(s.inc_below_limit_at(&key, 5, 30, 0).is_ok());
        assert_eq!(s.get(&key).unwrap().count, i);
    }
    // the window is fixed: the expiry stays the one of the first call
    assert_eq!(s.get(&key).unwrap().ttl, Some(30));
}

#[test]
fn increment_over_limit_fails_with_remaining_seconds() {
    let mut s = Store::new();
    let key = String::from("k");
    for _ in 0..3 {
        assert!(s.inc_below_limit_at(&key, 3, 10, 0).is_ok());
    }
    match s.inc_below_limit_at(&key, 3, 10, 4) {
        Err(ModelError::PastRateLimit(wait)) => {
            assert_eq!(wait, 6);
            assert!(0 <= wait && wait <= 10);
        },
        other => panic!("expected a rate-limit refusal, got {:?}", other),
    }
    // the refusal is side-effect-free
    assert_eq!(s.get(&key).unwrap().count, 3);
    assert_eq!(s.get(&key).unwrap().ttl, Some(10));
}

#[test]
fn remaining_seconds_clamps_to_zero_after_expiry() {
    let mut s = Store::new();
    let key = String::from("k");
    assert!(s.inc_below_limit_at(&key, 1, 5, 0).is_ok());
    // expired at 5, not yet swept; the report says "retry immediately"
    match s.inc_below_limit_at(&key, 1, 5, 9) {
        Err(ModelError::PastRateLimit(wait)) => assert_eq!(wait, 0),
        other => panic!("expected a rate-limit refusal, got {:?}", other),
    }
}

#[test]
fn eviction_drops_expired_and_resets_window() {
    let mut s = Store::new();
    let key = String::from("k");
    for _ in 0..3 {
        assert!(s.inc_below_limit_at(&key, 3, 2, 0).is_ok());
    }
    assert!(s.inc_below_limit_at(&key, 3, 2, 0).is_err());
    // expiry 2 has passed at time 3; one eviction pass removes the record
    s.evict_once_at(3);
    assert!(s.get(&key).is_none());
    // a fresh window opens with count 1
    assert!(s.inc_below_limit_at(&key, 3, 2, 3).is_ok());
    let got = s.get(&key).unwrap();
    assert_eq!(got.count, 1);
    assert_eq!(got.ttl, Some(5));
}

#[test]
fn eviction_keeps_unexpired_records() {
    let mut s = Store::new();
    let fresh = String::from("fresh");
    let stale = String::from("stale");
    assert!(s.insert_at(&stale, 2, 5, 0).is_ok());
    assert!(s.insert_at(&fresh, 7, 50, 0).is_ok());
    s.evict_once_at(10);
    assert!(s.get(&stale).is_none());
    let kept = s.get(&fresh).unwrap();
    assert_eq!(kept.count, 7);
    assert_eq!(kept.ttl, Some(50));
}

#[test]
fn insert_on_present_key_changes_nothing() {
    let mut s = Store::new();
    let key = String::from("k");
    assert!(s.insert_at(&key, 4, 9, 1).is_ok());
    match s.insert_at(&key, 123, 456, 789) {
        Err(ModelError::AlreadyPresent) => {},
        other => panic!("expected AlreadyPresent, got {:?}", other),
    }
    let kept = s.get(&key).unwrap();
    assert_eq!(kept.count, 4);
    assert_eq!(kept.ttl, Some(10));
}

#[test]
fn delete_absent_then_present() {
    let mut s = Store::new();
    let key = String::from("k");
    match s.delete(&key) {
        Err(ModelError::NotFound) => {},
        other => panic!("expected NotFound, got {:?}", other),
    }
    assert!(s.insert_at(&key, 1, 1000, 0).is_ok());
    assert!(s.delete(&key).is_ok());
    assert!(s.get(&key).is_none());
    // no orphaned scheduling: an eviction pass far in the future finds
    // nothing to do, and the key can be re-inserted at once
    s.evict_once_at(5000);
    assert!(s.get(&key).is_none());
    assert!(s.insert_at(&key, 9, 1000, 0).is_ok());
    assert_eq!(s.get(&key).unwrap().count, 9);
}

#[test]
fn scenario_three_calls_then_refusal_then_fresh_window() {
    // limit 3, ttl 2 s: three calls at t=0 count 1, 2, 3; the fourth is
    // refused with about 2 s of wait; past t=2 and one eviction pass, a
    // call succeeds again with count 1
    let mut s = Store::new();
    let key = String::from("k");
    for i in 1..=3_i64 {
        assert!(s.inc_below_limit_at(&key, 3, 2, 0).is_ok());
        assert_eq!(s.get(&key).unwrap().count, i);
    }
    match s.inc_below_limit_at(&key, 3, 2, 0) {
        Err(ModelError::PastRateLimit(wait)) => assert_eq!(wait, 2),
        other => panic!("expected a rate-limit refusal, got {:?}", other),
    }
    s.evict_once_at(3);
    assert!(s.inc_below_limit_at(&key, 3, 2, 3).is_ok());
    assert_eq!(s.get(&key).unwrap().count, 1);
}

#[test]
fn independent_keys_do_not_interfere() {
    let mut s = Store::new();
    let a = String::from("a");
    let b = String::from("b");
    assert!(s.inc_below_limit_at(&a, 1, 10, 0).is_ok());
    assert!(s.inc_below_limit_at(&b, 1, 10, 0).is_ok());
    assert!(s.inc_below_limit_at(&a, 1, 10, 0).is_err());
    assert_eq!(s.get(&a).unwrap().count, 1);
    assert_eq!(s.get(&b).unwrap().count, 1);
    assert!(s.delete(&a).is_ok());
    assert!(s.get(&a).is_none());
    assert_eq!(s.get(&b).unwrap().count, 1);
}

#[test]
fn saturating_expiry_near_the_end_of_the_range() {
    let mut s = Store::new();
    let key = String::from("k");
    assert!(s.insert_at(&key, 0, i64::MAX, 10).is_ok());
    assert_eq!(s.get(&key).unwrap().ttl, Some(i64::MAX));
}

#[test]
fn error_messages() {
    assert_eq!(ModelError::NotFound.message(), "Key Not Found");
    assert_eq!(
        ModelError::AlreadyPresent.message(),
        "Key is not present in the data set"
    );
    assert_eq!(
        ModelError::PastRateLimit(7).message(),
        "Rate limit exceeded please wait 7 seconds"
    );
}

#[test]
fn one_pass_evicts_every_expired_key() {
    let mut s = Store::new();
    let a = String::from("a");
    let b = String::from("b");
    let c = String::from("c");
    assert!(s.insert_at(&a, 1, 1, 0).is_ok());
    assert!(s.insert_at(&b, 1, 2, 0).is_ok());
    assert!(s.insert_at(&c, 1, 3, 0).is_ok());
    // at t = 3, expiries 1 and 2 lie strictly in the past; 3 does not yet
    s.evict_once_at(3);
    assert!(s.get(&a).is_none());
    assert!(s.get(&b).is_none());
    assert_eq!(s.get(&c).unwrap().count, 1);
}

#[test]
fn first_event_in_fresh_window_succeeds_whatever_the_limit() {
    // the limit is only checked against an existing record; the first event
    // of a window always passes and is counted
    let mut s = Store::new();
    let key = String::from("k");
    assert!(s.inc_below_limit_at(&key, 0, 10, 0).is_ok());
    assert_eq!(s.get(&key).unwrap().count, 1);
    assert!(s.inc_below_limit_at(&key, 0, 10, 0).is_err());
}
