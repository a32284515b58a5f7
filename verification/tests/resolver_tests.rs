use capacity_cache::errors::ErrorKind;
use capacity_cache::resolver::{
    accepts, resolve_step, start_resolve, upstream_url, Action, Event, ResolveState,
};
use capacity_cache::time::LogicalTime;

fn at(year: u32, month: u32, day: u32, hour: u32, minute: u32) -> LogicalTime {
    LogicalTime { year, month, day, hour, minute }
}

fn store_get(store: &[(String, String)], key: &str) -> Option<String> {
    for (k, v) in store {
        if k == key {
            return Some(v.clone());
        }
    }
    None
}

/// Drives a current-day resolution against a simulated store, answering
/// fetches with `upstream`. Returns the outcome and whether the upstream
/// was consulted.
fn run_current(
    store: &mut Vec<(String, String)>,
    studio: &str,
    t: &LogicalTime,
    upstream: &str,
) -> (Result<String, ErrorKind>, bool) {
    let (state, action) = start_resolve(studio.to_string(), false, t);
    let key = match &action {
        Action::ReadKey { key } => key.clone(),
        _ => panic!("a current-day resolution starts with a point read"),
    };
    let event = match store_get(store, &key) {
        Some(v) => Event::ReadHit { payload: v },
        None => Event::ReadMiss,
    };
    assert!(accepts(&state, &event));
    let (state, action) = resolve_step(state, event);
    match action {
        Action::Finish { outcome } => (outcome, false),
        Action::FetchUpstream { studio_id } => {
            assert_eq!(studio_id, studio);
            let event = Event::FetchSucceeded { payload: upstream.to_string() };
            assert!(accepts(&state, &event));
            let (state, action) = resolve_step(state, event);
            let (wkey, wpayload) = match action {
                Action::WriteKey { key, payload } => (key, payload),
                _ => panic!("a successful fetch is followed by the write-back"),
            };
            assert_eq!(wkey, key);
            store.push((wkey, wpayload));
            let event = Event::WriteSucceeded;
            assert!(accepts(&state, &event));
            let (_state, action) = resolve_step(state, event);
            match action {
                Action::Finish { outcome } => (outcome, true),
                _ => panic!("the write-back ends the resolution"),
            }
        }
        _ => panic!("unexpected action after the point read"),
    }
}

#[test]
fn cache_hit_returns_the_stored_payload_without_fetching() {
    let stored = "{\"items\":[]}".to_string();
    let mut store = vec![("S1-2024-06-01-10".to_string(), stored.clone())];
    let (outcome, fetched) = run_current(&mut store, "S1", &at(2024, 6, 1, 10, 42), "unused");
    assert_eq!(outcome, Ok(stored));
    assert!(!fetched);
}

#[test]
fn cache_miss_fetches_writes_back_and_returns() {
    let mut store = Vec::new();
    let payload = "{\"startTime\":\"06:00\"}";
    let (outcome, fetched) = run_current(&mut store, "S1", &at(2024, 6, 1, 10, 0), payload);
    assert_eq!(outcome, Ok(payload.to_string()));
    assert!(fetched);
    assert_eq!(
        store_get(&store, "S1-2024-06-01-10"),
        Some(payload.to_string())
    );
}

#[test]
fn resolving_twice_in_one_hour_reuses_the_written_bucket() {
    let mut store = Vec::new();
    let payload = "{\"x\":1}";
    let (first, fetched_first) = run_current(&mut store, "S1", &at(2024, 6, 1, 10, 5), payload);
    assert!(fetched_first);
    let (second, fetched_second) =
        run_current(&mut store, "S1", &at(2024, 6, 1, 10, 55), "never used");
    assert!(!fetched_second);
    assert_eq!(first, second);
    assert_eq!(second, Ok(payload.to_string()));
}

#[test]
fn yesterday_reads_the_newest_bucket_exclusively() {
    let t = at(2024, 6, 1, 8, 0);
    let (state, action) = start_resolve("S1".to_string(), true, &t);
    let pattern = match &action {
        Action::ListKeys { pattern } => pattern.clone(),
        _ => panic!("a yesterday resolution starts with an enumeration"),
    };
    assert_eq!(pattern, "S1-2024-05-31-*");
    let keys = vec![
        "S1-2024-05-31-06".to_string(),
        "S1-2024-05-31-14".to_string(),
        "S1-2024-05-31-19".to_string(),
    ];
    let event = Event::KeysListed { keys };
    assert!(accepts(&state, &event));
    let (state, action) = resolve_step(state, event);
    let key = match &action {
        Action::ReadKey { key } => key.clone(),
        _ => panic!("the enumeration is followed by the point read"),
    };
    assert_eq!(key, "S1-2024-05-31-19");
    let event = Event::ReadHit { payload: "old snapshot".to_string() };
    assert!(accepts(&state, &event));
    let (state, action) = resolve_step(state, event);
    assert!(matches!(state, ResolveState::Finished));
    match action {
        Action::Finish { outcome } => assert_eq!(outcome, Ok("old snapshot".to_string())),
        _ => panic!("a hit ends the resolution"),
    }
}

#[test]
fn yesterday_without_buckets_fails_without_fetching() {
    let (state, _action) = start_resolve("S1".to_string(), true, &at(2024, 6, 1, 8, 0));
    let event = Event::KeysListed { keys: Vec::new() };
    assert!(accepts(&state, &event));
    let (state, action) = resolve_step(state, event);
    assert!(matches!(state, ResolveState::Finished));
    match action {
        Action::Finish { outcome } => assert_eq!(outcome, Err(ErrorKind::NoHistoricalData)),
        _ => panic!("an empty enumeration ends the resolution"),
    }
}

#[test]
fn failed_enumeration_surfaces_a_store_error() {
    let (state, _action) = start_resolve("S1".to_string(), true, &at(2024, 6, 1, 8, 0));
    let event = Event::KeysFailed;
    assert!(accepts(&state, &event));
    let (_state, action) = resolve_step(state, event);
    match action {
        Action::Finish { outcome } => assert_eq!(outcome, Err(ErrorKind::StoreError)),
        _ => panic!("a failed enumeration ends the resolution"),
    }
}

#[test]
fn failed_read_degrades_to_a_fetch() {
    let (state, _action) = start_resolve("S1".to_string(), false, &at(2024, 6, 1, 10, 0));
    let event = Event::ReadFailed;
    assert!(accepts(&state, &event));
    let (_state, action) = resolve_step(state, event);
    match action {
        Action::FetchUpstream { studio_id } => assert_eq!(studio_id, "S1"),
        _ => panic!("a failed read degrades to the upstream fetch"),
    }
}

#[test]
fn failed_fetch_reports_upstream_unavailable() {
    let (state, _action) = start_resolve("S1".to_string(), false, &at(2024, 6, 1, 10, 0));
    let (state, _action) = resolve_step(state, Event::ReadMiss);
    let event = Event::FetchFailed;
    assert!(accepts(&state, &event));
    let (_state, action) = resolve_step(state, event);
    match action {
        Action::Finish { outcome } => assert_eq!(outcome, Err(ErrorKind::UpstreamUnavailable)),
        _ => panic!("a failed fetch ends the resolution"),
    }
}

#[test]
fn failed_write_back_still_returns_the_payload() {
    let (state, _action) = start_resolve("S1".to_string(), false, &at(2024, 6, 1, 10, 0));
    let (state, _action) = resolve_step(state, Event::ReadMiss);
    let payload = "fresh".to_string();
    let (state, _action) = resolve_step(state, Event::FetchSucceeded { payload: payload.clone() });
    let event = Event::WriteFailed;
    assert!(accepts(&state, &event));
    let (_state, action) = resolve_step(state, event);
    match action {
        Action::Finish { outcome } => assert_eq!(outcome, Ok(payload)),
        _ => panic!("an ignored write failure still ends the resolution"),
    }
}

#[test]
fn mismatched_events_are_rejected() {
    let (state, _action) = start_resolve("S1".to_string(), false, &at(2024, 6, 1, 10, 0));
    assert!(!accepts(&state, &Event::KeysFailed));
    assert!(!accepts(&state, &Event::FetchFailed));
    assert!(!accepts(&state, &Event::WriteSucceeded));
    assert!(!accepts(&ResolveState::Finished, &Event::ReadMiss));
}

#[test]
fn upstream_url_is_parameterized_by_the_studio_alone() {
    assert_eq!(
        upstream_url(&"S1".to_string()),
        "https://typo3.johnreed.fitness/studiocapacity.json?studioId=S1"
    );
}
