use http_health_checker::outcome::HealthCheck;
use http_health_checker::report::{outcome_block, report_blocks};

fn up() -> HealthCheck {
    HealthCheck::from_result("https://a.test/".to_string(), Ok(200), 42, 0)
}

#[test]
fn up_block_names_code() {
    let text = outcome_block(&up(), "STAMP");
    assert_eq!(text, "UP https://a.test/ [42 ms] - STAMP\n Status Code: 200\n");
}

#[test]
fn down_block_names_error_and_code() {
    let r = HealthCheck::from_result("http://b/".to_string(), Ok(503), 1500, 0);
    let text = outcome_block(&r, "T");
    assert_eq!(text, "DOWN http://b/ [1500 ms] - T\n Error: HTTP 503\n Status Code: 503\n");
}

#[test]
fn failure_block_has_no_code() {
    let r = HealthCheck::from_result("x".to_string(), Err("refused".to_string()), 0, 0);
    assert_eq!(outcome_block(&r, "T"), "DOWN x [0 ms] - T\n Error: refused\n");
}

#[test]
fn blocks_stamp_in_utc() {
    let late = HealthCheck::from_result("u".to_string(), Ok(204), 7, 1_700_000_000_123);
    let blocks = report_blocks(&vec![up(), late]);
    assert_eq!(blocks.len(), 2);
    assert_eq!(blocks[0], "UP https://a.test/ [42 ms] - 1970-01-01 00:00:00 UTC\n Status Code: 200\n");
    assert_eq!(blocks[1], "UP u [7 ms] - 2023-11-14 22:13:20 UTC\n Status Code: 204\n");
    assert!(report_blocks(&Vec::new()).is_empty());
}
