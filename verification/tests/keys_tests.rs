use capacity_cache::keys::{create_current_key, create_key, create_redis_search_key, KeyQuery};
use capacity_cache::time::LogicalTime;

fn at(year: u32, month: u32, day: u32, hour: u32, minute: u32) -> LogicalTime {
    LogicalTime { year, month, day, hour, minute }
}

#[test]
fn current_key_formats_hour_bucket() {
    let t = at(2024, 6, 1, 10, 42);
    let key = create_current_key(&"S1".to_string(), &t);
    assert_eq!(key, "S1-2024-06-01-10");
}

#[test]
fn current_key_zero_pads_every_component() {
    let t = at(987, 1, 5, 3, 0);
    let key = create_current_key(&"gym".to_string(), &t);
    assert_eq!(key, "gym-0987-01-05-03");
}

#[test]
fn current_key_stable_within_hour() {
    let a = create_current_key(&"S1".to_string(), &at(2024, 6, 1, 10, 0));
    let b = create_current_key(&"S1".to_string(), &at(2024, 6, 1, 10, 59));
    assert_eq!(a, b);
}

#[test]
fn current_key_changes_at_hour_boundary() {
    let a = create_current_key(&"S1".to_string(), &at(2024, 6, 1, 10, 59));
    let b = create_current_key(&"S1".to_string(), &at(2024, 6, 1, 11, 0));
    assert_ne!(a, b);
    let c = create_current_key(&"S1".to_string(), &at(2024, 6, 1, 23, 59));
    let d = create_current_key(&"S1".to_string(), &at(2024, 6, 2, 0, 0));
    assert_ne!(c, d);
}

#[test]
fn search_pattern_for_today() {
    let p = create_redis_search_key(&"S1".to_string(), false, &at(2024, 6, 1, 8, 0));
    assert_eq!(p, "S1-2024-06-01-*");
}

#[test]
fn search_pattern_for_yesterday() {
    let p = create_redis_search_key(&"S1".to_string(), true, &at(2024, 6, 1, 8, 0));
    assert_eq!(p, "S1-2024-05-31-*");
}

#[test]
fn search_pattern_yesterday_across_month_and_leap_day() {
    let p = create_redis_search_key(&"S1".to_string(), true, &at(2024, 3, 1, 8, 0));
    assert_eq!(p, "S1-2024-02-29-*");
    let q = create_redis_search_key(&"S1".to_string(), true, &at(2023, 3, 1, 8, 0));
    assert_eq!(q, "S1-2023-02-28-*");
}

#[test]
fn search_pattern_yesterday_across_year() {
    let p = create_redis_search_key(&"S1".to_string(), true, &at(2024, 1, 1, 0, 30));
    assert_eq!(p, "S1-2023-12-31-*");
}

#[test]
fn create_key_today_is_ready_at_once() {
    let q = create_key(&"S1".to_string(), false, &at(2024, 6, 1, 10, 42));
    match q {
        KeyQuery::Ready { key } => assert_eq!(key, "S1-2024-06-01-10"),
        KeyQuery::Search { .. } => panic!("a current-day request needs no search"),
    }
}

#[test]
fn create_key_yesterday_needs_a_search() {
    let q = create_key(&"S1".to_string(), true, &at(2024, 6, 1, 10, 42));
    match q {
        KeyQuery::Search { pattern } => assert_eq!(pattern, "S1-2024-05-31-*"),
        KeyQuery::Ready { .. } => panic!("a yesterday request must enumerate first"),
    }
}
