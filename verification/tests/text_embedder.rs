use chrono::{DateTime, Utc};
use product_service::digest::sha256_hex;
use product_service::embedder::{select_changed, tick_batch_size, Candidate, DailyCounter, MAX_TIMESTAMP, MIN_TIMESTAMP};

#[test]
fn sha256_is_stable() {
    let a = sha256_hex(b"hello");
    let b = sha256_hex(b"hello");
    assert_eq!(a, b);
    assert_ne!(a, sha256_hex(b"world"));
    // Sanity: hex length = 64.
    assert_eq!(a.len(), 64);
}

#[test]
fn sha256_matches_known_digests() {
    assert_eq!(
        sha256_hex(b"hello"),
        "2cf24dba5fb0a30e26e83b2ac5b9e29e1b161e5c1fa7425e73043362938b9824"
    );
    assert_eq!(
        sha256_hex(b""),
        "e3b0c44298fc1c149afbf4c8996fb92427ae41e4649b934ca495991b7852b855"
    );
}

#[test]
fn daily_counter_rolls_over_on_new_day() {
    let day1 = "2026-05-19T10:00:00Z".parse::<DateTime<Utc>>().unwrap();
    let day2 = "2026-05-20T01:00:00Z".parse::<DateTime<Utc>>().unwrap();
    let mut c = DailyCounter::new(day1.timestamp());
    c.add(7);
    assert_eq!(c.remaining(10), 3);
    c.maybe_roll_over(day2.timestamp());
    assert_eq!(c.remaining(10), 10);
}

#[test]
fn daily_counter_keeps_count_within_the_same_day() {
    let morning = "2026-05-19T00:00:00Z".parse::<DateTime<Utc>>().unwrap();
    let night = "2026-05-19T23:59:59Z".parse::<DateTime<Utc>>().unwrap();
    let mut c = DailyCounter::new(morning.timestamp());
    c.add(4);
    c.maybe_roll_over(night.timestamp());
    assert_eq!(c.remaining(10), 6);
}

#[test]
fn daily_counter_saturates() {
    let now = "2026-05-19T10:00:00Z".parse::<DateTime<Utc>>().unwrap();
    let mut c = DailyCounter::new(now.timestamp());
    c.add(25);
    assert_eq!(c.remaining(10), 0);
    c.add(usize::MAX);
    assert_eq!(c.remaining(usize::MAX), 0);
}

#[test]
fn daily_counter_handles_days_before_1970() {
    let a = "1969-12-31T23:00:00Z".parse::<DateTime<Utc>>().unwrap();
    let b = "1970-01-01T00:30:00Z".parse::<DateTime<Utc>>().unwrap();
    let mut c = DailyCounter::new(a.timestamp());
    c.add(3);
    c.maybe_roll_over(b.timestamp());
    assert_eq!(c.remaining(5), 5);
}

#[test]
fn batch_size_is_capped_by_the_budget() {
    assert_eq!(tick_batch_size(50, 0), None);
    assert_eq!(tick_batch_size(50, 7), Some(7));
    assert_eq!(tick_batch_size(5, 7), Some(5));
}

#[test]
fn unchanged_texts_are_not_embedded_again() {
    let fresh = Candidate::new(1, Some("red dress".to_string()), None);
    let same_hash = sha256_hex("blue coat".as_bytes());
    let unchanged = Candidate::new(2, Some("blue coat".to_string()), Some(same_hash));
    let stale = Candidate::new(3, None, Some("deadbeef".to_string()));
    assert_eq!(stale.text, "");
    let kept = select_changed(vec![fresh, unchanged, stale]);
    let ids: Vec<u128> = kept.iter().map(|c| c.product_id).collect();
    assert_eq!(ids, vec![1, 3]);
}

#[test]
fn daily_counter_works_at_the_ends_of_chrono_range() {
    let mut c = DailyCounter::new(MAX_TIMESTAMP);
    c.add(5);
    c.maybe_roll_over(MAX_TIMESTAMP - 86_399);
    assert_eq!(c.remaining(10), 5);
    c.maybe_roll_over(MAX_TIMESTAMP - 86_400);
    assert_eq!(c.remaining(10), 10);

    let mut c = DailyCounter::new(MIN_TIMESTAMP);
    c.add(3);
    c.maybe_roll_over(MIN_TIMESTAMP + 86_399);
    assert_eq!(c.remaining(10), 7);
    c.maybe_roll_over(MIN_TIMESTAMP + 86_400);
    assert_eq!(c.remaining(10), 10);
}
