use capacity_cache::errors::ErrorKind;
use capacity_cache::select::extract_newest_key;

#[test]
fn select_newest_picks_the_latest_hour() {
    let keys = vec![
        "A-2024-01-01-09".to_string(),
        "A-2024-01-01-23".to_string(),
        "A-2024-01-01-02".to_string(),
    ];
    assert_eq!(extract_newest_key(keys), Ok("A-2024-01-01-23".to_string()));
}

#[test]
fn select_newest_over_an_empty_set_fails() {
    assert_eq!(extract_newest_key(Vec::new()), Err(ErrorKind::EmptyKeySet));
}

#[test]
fn select_newest_of_a_single_key() {
    let keys = vec!["A-2024-01-01-07".to_string()];
    assert_eq!(extract_newest_key(keys), Ok("A-2024-01-01-07".to_string()));
}

#[test]
fn select_newest_tolerates_duplicates() {
    let keys = vec![
        "A-2024-01-01-23".to_string(),
        "A-2024-01-01-23".to_string(),
        "A-2024-01-01-09".to_string(),
    ];
    assert_eq!(extract_newest_key(keys), Ok("A-2024-01-01-23".to_string()));
}

#[test]
fn select_newest_orders_prefixes_before_extensions() {
    let keys = vec!["AB".to_string(), "ABC".to_string(), "AA".to_string()];
    assert_eq!(extract_newest_key(keys), Ok("ABC".to_string()));
}
