use http_health_checker::checker::{complete_all, get_default_urls, urls_or_default, HealthChecker};
use std::time::Duration;

fn response(code: u16) -> reqwest::Response {
    let r = http::Response::builder().status(code).body("").unwrap();
    reqwest::Response::from(r)
}

fn checker() -> HealthChecker {
    match HealthChecker::new(Duration::from_secs(2)) {
        Ok(c) => c,
        Err(e) => panic!("client: {}", e.message),
    }
}

#[test]
fn client_keeps_timeout() {
    assert_eq!(checker().timeout(), Duration::from_secs(2));
}

#[test]
fn ok_reply_is_up() {
    let c = checker();
    let (probe, _request) = c.launch("http://127.0.0.1:9/ok");
    assert_eq!(probe.url_text(), "http://127.0.0.1:9/ok");
    let check = probe.complete(Ok(response(200)));
    assert_eq!(check.status, "UP");
    assert_eq!(check.status_code, Some(200));
    assert!(check.error.is_none());
    assert_eq!(check.url, "http://127.0.0.1:9/ok");
}

#[test]
fn boom_reply_is_down() {
    let c = checker();
    let (probe, _request) = c.launch("http://127.0.0.1:9/boom");
    let check = probe.complete(Ok(response(500)));
    assert_eq!(check.status, "DOWN");
    assert_eq!(check.status_code, Some(500));
    assert_eq!(check.error, Some("HTTP 500".to_string()));
}

#[test]
fn malformed_url_is_down() {
    let c = checker();
    let (probe, request) = c.launch("not-a-valid-url");
    let err = request.build().unwrap_err();
    let check = probe.complete(Err(err));
    assert_eq!(check.status, "DOWN");
    assert_eq!(check.status_code, None);
    assert!(!check.error.unwrap().is_empty());
}

#[test]
fn batch_order_follows_input() {
    let c = checker();
    let urls = vec!["http://h/ok".to_string(), "http://h/boom".to_string()];
    let (probes, requests) = c.launch_all(&urls);
    assert_eq!(requests.len(), 2);
    let results = complete_all(probes, vec![Ok(response(200)), Ok(response(500))]);
    assert_eq!(results.len(), 2);
    assert_eq!(results[0].url, "http://h/ok");
    assert_eq!(results[0].status, "UP");
    assert_eq!(results[1].url, "http://h/boom");
    assert_eq!(results[1].status, "DOWN");
}

#[test]
fn batch_with_duplicates_and_empty() {
    let c = checker();
    let urls = vec!["http://h/".to_string(), "http://h/".to_string(), "x".to_string()];
    let (probes, _requests) = c.launch_all(&urls);
    let results = complete_all(probes, vec![Ok(response(204)), Ok(response(404)), Ok(response(503))]);
    assert_eq!(results.len(), 3);
    assert_eq!(results[0].url, "http://h/");
    assert_eq!(results[1].url, "http://h/");
    assert_eq!(results[2].url, "x");
    assert_eq!(results[0].status_code, Some(204));
    assert_eq!(results[1].error, Some("HTTP 404".to_string()));

    let (none, reqs) = c.launch_all(&Vec::new());
    assert!(reqs.is_empty());
    assert!(complete_all(none, Vec::new()).is_empty());
}

#[test]
fn outcome_stamped_after_launch() {
    let c = checker();
    let before = chrono::Utc::now().timestamp_millis();
    let (probe, _request) = c.launch("http://h/");
    let check = probe.complete(Ok(response(200)));
    assert!(check.timestamp >= before);
}

#[test]
fn unresolvable_host_is_down() {
    let c = checker();
    let rt = tokio::runtime::Builder::new_current_thread().enable_all().build().unwrap();
    let check = rt.block_on(async {
        let (probe, request) = c.launch("https://example.invalid/");
        let reply = request.send().await;
        probe.complete(reply)
    });
    assert_eq!(check.url, "https://example.invalid/");
    assert_eq!(check.status, "DOWN");
    assert_eq!(check.status_code, None);
    assert!(!check.error.unwrap().is_empty());
    assert!(check.response_time_ms <= 5000);
}

#[test]
fn defaults_when_no_urls() {
    let d = get_default_urls();
    assert_eq!(d, vec!["https://httpbin.org/status/200", "https://google.com", "https://github.com"]);
    assert_eq!(urls_or_default(Vec::new()), d);
    let given = vec!["http://x".to_string()];
    assert_eq!(urls_or_default(given.clone()), given);
}
