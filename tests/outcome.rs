use http_health_checker::outcome::{http_error, HealthCheck};
use std::time::Duration;

#[test]
fn test_health_check_creation() {
    let check = HealthCheck::new_success(
        "https://example.com".to_string(),
        200,
        Duration::from_millis(100),
    );

    assert_eq!(check.url, "https://example.com");
    assert_eq!(check.status, "UP");
    assert_eq!(check.response_time_ms, 100);
    assert!(check.error.is_none());
}

#[test]
fn test_health_check_failure() {
    let check = HealthCheck::new_failure(
        "https://example.com".to_string(),
        "Connection failed".to_string(),
        Duration::from_millis(500),
    );

    assert_eq!(check.status, "DOWN");
    assert_eq!(check.status_code, None);
    assert_eq!(check.error, Some("Connection failed".to_string()));
}

#[test]
fn failure_keeps_whole_milliseconds() {
    let check = HealthCheck::new_failure(
        "https://example.com".to_string(),
        "timed out".to_string(),
        Duration::from_micros(2_750_900),
    );
    assert_eq!(check.response_time_ms, 2750);
    assert_eq!(check.url, "https://example.com");
}

#[test]
fn success_code_is_up() {
    let check = HealthCheck::from_result("http://a/ok".to_string(), Ok(200), 12, 1_700_000_000_000);
    assert_eq!(check.url, "http://a/ok");
    assert_eq!(check.status, "UP");
    assert_eq!(check.status_code, Some(200));
    assert_eq!(check.error, None);
    assert_eq!(check.response_time_ms, 12);
    assert_eq!(check.timestamp, 1_700_000_000_000);
}

#[test]
fn edge_of_success_class() {
    let low = HealthCheck::from_result("u".to_string(), Ok(200), 0, 0);
    let high = HealthCheck::from_result("u".to_string(), Ok(299), 0, 0);
    let above = HealthCheck::from_result("u".to_string(), Ok(300), 0, 0);
    let below = HealthCheck::from_result("u".to_string(), Ok(199), 0, 0);
    assert_eq!(low.status, "UP");
    assert_eq!(high.status, "UP");
    assert_eq!(above.status, "DOWN");
    assert_eq!(above.error, Some("HTTP 300".to_string()));
    assert_eq!(below.status, "DOWN");
    assert_eq!(below.error, Some("HTTP 199".to_string()));
}

#[test]
fn server_error_is_down_with_code() {
    let check = HealthCheck::from_result("http://a/boom".to_string(), Ok(500), 3, 5);
    assert_eq!(check.status, "DOWN");
    assert_eq!(check.status_code, Some(500));
    assert_eq!(check.error, Some("HTTP 500".to_string()));
}

#[test]
fn redirect_and_not_found_are_down() {
    let moved = HealthCheck::from_result("http://a/".to_string(), Ok(301), 3, 5);
    let missing = HealthCheck::from_result("http://a/".to_string(), Ok(404), 3, 5);
    assert_eq!(moved.status, "DOWN");
    assert_eq!(moved.status_code, Some(301));
    assert_eq!(moved.error, Some("HTTP 301".to_string()));
    assert_eq!(missing.status, "DOWN");
    assert_eq!(missing.error, Some("HTTP 404".to_string()));
}

#[test]
fn transport_failure_is_down_without_code() {
    let check = HealthCheck::from_result(
        "https://example.invalid/".to_string(),
        Err("dns error".to_string()),
        40,
        9,
    );
    assert_eq!(check.url, "https://example.invalid/");
    assert_eq!(check.status, "DOWN");
    assert_eq!(check.status_code, None);
    assert_eq!(check.error, Some("dns error".to_string()));
    assert_eq!(check.response_time_ms, 40);
}

#[test]
fn error_text_in_decimal() {
    assert_eq!(http_error(500), "HTTP 500");
    assert_eq!(http_error(0), "HTTP 0");
    assert_eq!(http_error(7), "HTTP 7");
    assert_eq!(http_error(65535), "HTTP 65535");
}
