use std::collections::HashMap;

use emobanana::error::AppError;
use emobanana::quota::{day_of, quota_key, resolve_identity, stored_count, QuotaTracker, MAX_REQUESTS_PER_DAY};

/// Runs one request of `identity` on `day` against `store`: read, check, and on
/// success record. Returns the check's result.
fn request(store: &mut HashMap<String, String>, identity: &str, day: &str) -> Result<(), AppError> {
    let mut tracker = QuotaTracker::new(identity.to_string(), day);
    let stored = tracker.key().and_then(|k| store.get(k).cloned());
    tracker.check_and_reserve(stored)?;
    if let Some((key, count)) = tracker.commit() {
        store.insert(key, count.to_string());
    }
    Ok(())
}

#[test]
fn sixth_request_of_a_day_is_refused() {
    let mut store = HashMap::new();
    for _ in 0..MAX_REQUESTS_PER_DAY {
        assert!(request(&mut store, "203.0.113.7", "2025-03-01").is_ok());
    }
    assert_eq!(store.get("rate_limit:203.0.113.7:2025-03-01").map(String::as_str), Some("5"));
    let sixth = request(&mut store, "203.0.113.7", "2025-03-01");
    match sixth {
        Err(AppError::RateLimitExceeded(m)) => {
            assert_eq!(m, "Rate limit exceeded. You can make 5 requests per day. Try again tomorrow.")
        },
        other => panic!("unexpected {:?}", other),
    }
    assert!(request(&mut store, "203.0.113.7", "2025-03-02").is_ok());
    assert!(request(&mut store, "198.51.100.1", "2025-03-01").is_ok());
}

#[test]
fn unknown_identity_is_never_limited() {
    let mut store = HashMap::new();
    for _ in 0..50 {
        assert!(request(&mut store, "unknown", "2025-03-01").is_ok());
    }
    assert!(store.is_empty());
    let mut tracker = QuotaTracker::new("unknown".to_string(), "2025-03-01");
    assert!(tracker.key().is_none());
    assert!(tracker.check_and_reserve(Some("999".to_string())).is_ok());
    assert!(tracker.commit().is_none());
}

#[test]
fn identity_comes_from_first_present_header() {
    let s = |x: &str| Some(x.to_string());
    assert_eq!(resolve_identity(s("1.1.1.1"), s("2.2.2.2"), s("3.3.3.3")), "1.1.1.1");
    assert_eq!(resolve_identity(None, s("2.2.2.2"), s("3.3.3.3")), "2.2.2.2");
    assert_eq!(resolve_identity(None, None, s("3.3.3.3")), "3.3.3.3");
    assert_eq!(resolve_identity(None, None, None), "unknown");
}

#[test]
fn day_is_the_date_part() {
    assert_eq!(day_of("2025-03-01T10:20:30.000Z"), "2025-03-01");
    assert_eq!(day_of("2025-03-01 10:20:30"), "2025-03-01");
    assert_eq!(day_of("2025-03-01"), "2025-03-01");
    assert_eq!(day_of(""), "");
}

#[test]
fn key_layout() {
    assert_eq!(quota_key("10.0.0.1", "2025-03-01"), "rate_limit:10.0.0.1:2025-03-01");
}

#[test]
fn stored_values_are_read_leniently() {
    assert_eq!(stored_count(&None), 0);
    assert_eq!(stored_count(&Some("4".to_string())), 4);
    assert_eq!(stored_count(&Some("+7".to_string())), 7);
    assert_eq!(stored_count(&Some("abc".to_string())), 0);
    assert_eq!(stored_count(&Some("-1".to_string())), 0);
    assert_eq!(stored_count(&Some("4294967295".to_string())), u32::MAX);
    assert_eq!(stored_count(&Some("4294967296".to_string())), 0);
    assert_eq!(stored_count(&Some("".to_string())), 0);
}

#[test]
fn unreadable_store_fails_open() {
    let mut tracker = QuotaTracker::new("10.0.0.1".to_string(), "2025-03-01");
    assert!(tracker.check_and_reserve(None).is_ok());
    assert_eq!(tracker.commit(), Some(("rate_limit:10.0.0.1:2025-03-01".to_string(), 1)));
}

#[test]
fn counter_saturates_at_the_top() {
    let mut tracker = QuotaTracker::new("unknown".to_string(), "d");
    assert!(tracker.check_and_reserve(Some("4294967295".to_string())).is_ok());
    let mut known = QuotaTracker::new("a".to_string(), "d");
    assert!(known.check_and_reserve(Some("4294967295".to_string())).is_err());
    assert_eq!(known.commit(), Some(("rate_limit:a:d".to_string(), u32::MAX)));
}
