use capacity_cache::refresher::{Refresher, REFRESH_INTERVAL_SECONDS};

#[test]
fn first_tick_is_due_and_the_roster_is_walked_in_order() {
    let mut r = Refresher::new(vec!["A".to_string(), "B".to_string()]);
    assert!(r.tick(1000));
    assert_eq!(r.next_studio(), Some("A".to_string()));
    assert_eq!(r.next_studio(), Some("B".to_string()));
    assert_eq!(r.next_studio(), None);
    assert!(!r.refreshing);
}

#[test]
fn a_cycle_is_not_due_again_within_the_interval() {
    let mut r = Refresher::new(vec!["A".to_string()]);
    assert!(r.tick(1000));
    while r.next_studio().is_some() {}
    assert!(!r.tick(1000 + REFRESH_INTERVAL_SECONDS - 1));
    assert!(r.tick(1000 + REFRESH_INTERVAL_SECONDS));
}

#[test]
fn the_interval_is_measured_from_the_cycle_start() {
    let mut r = Refresher::new(vec!["A".to_string()]);
    assert!(r.tick(5000));
    while r.next_studio().is_some() {}
    assert!(r.tick(5000 + REFRESH_INTERVAL_SECONDS));
    while r.next_studio().is_some() {}
    assert!(!r.tick(5000 + 2 * REFRESH_INTERVAL_SECONDS - 1));
    assert!(r.tick(5000 + 2 * REFRESH_INTERVAL_SECONDS));
}

#[test]
fn an_empty_roster_cycle_ends_at_once() {
    let mut r = Refresher::new(Vec::new());
    assert!(r.tick(0));
    assert_eq!(r.next_studio(), None);
    assert!(!r.refreshing);
}

#[test]
fn a_clock_that_went_backwards_does_not_trigger() {
    let mut r = Refresher::new(vec!["A".to_string()]);
    assert!(r.tick(10_000));
    while r.next_studio().is_some() {}
    assert!(!r.tick(500));
}
