//! The probe engine: one shared HTTP client, the probes it launches, and how
//! each probe's reply becomes an outcome.

use crate::clock::{completion_time, duration_millis, elapsed_since, instant_now, utc_now_millis};
use crate::outcome::{http_error_text, is_success_code, text_of, HealthCheck};
use core::time::Duration;
use std::time::Instant;
use vstd::prelude::*;
use vstd::string::*;

verus! {

#[verifier::external_type_specification]
#[verifier::external_body]
pub struct ExClient(reqwest::Client);

#[verifier::external_type_specification]
#[verifier::external_body]
pub struct ExClientBuilder(reqwest::ClientBuilder);

#[verifier::external_type_specification]
#[verifier::external_body]
pub struct ExRequestBuilder(reqwest::RequestBuilder);

#[verifier::external_type_specification]
#[verifier::external_body]
pub struct ExResponse(reqwest::Response);

#[verifier::external_type_specification]
#[verifier::external_body]
pub struct ExError(reqwest::Error);

/// Relies on `reqwest::Client::builder`: a builder with the default settings.
#[verifier::external_body]
fn client_builder() -> (r: reqwest::ClientBuilder) {
    reqwest::Client::builder()
}

/// Relies on `reqwest::ClientBuilder::timeout`: a total timeout for each request.
#[verifier::external_body]
fn with_timeout(b: reqwest::ClientBuilder, timeout: Duration) -> (r: reqwest::ClientBuilder) {
    b.timeout(timeout)
}

/// Relies on `reqwest::ClientBuilder::user_agent`: the User-Agent header sent.
#[verifier::external_body]
fn with_user_agent(b: reqwest::ClientBuilder, agent: &'static str) -> (r: reqwest::ClientBuilder) {
    b.user_agent(agent)
}

/// Relies on `reqwest::ClientBuilder::build`: the client, or why it could not
/// be made.
#[verifier::external_body]
fn build_client(b: reqwest::ClientBuilder) -> (r: Result<reqwest::Client, reqwest::Error>) {
    b.build()
}

/// Relies on `reqwest::Client::get`: a GET request for `url`; a malformed URL
/// is reported when the request is sent.
#[verifier::external_body]
fn get_request(client: &reqwest::Client, url: &str) -> (r: reqwest::RequestBuilder) {
    client.get(url)
}

/// Relies on `reqwest::Response::status` and `http::StatusCode::as_u16`: the
/// response's status code, which `StatusCode` holds within 100..=999.
#[verifier::external_body]
fn response_status(resp: &reqwest::Response) -> (r: u16)
    ensures
        100 <= r <= 999,
{
    resp.status().as_u16()
}

/// Relies on reqwest's `Display` for `Error`: every kind of error writes a
/// description of its kind first, so the message is never empty.
#[verifier::external_body]
fn error_message(e: &reqwest::Error) -> (r: String)
    ensures
        r@.len() > 0,
{
    e.to_string()
}

/// Why the HTTP client could not be made.
#[derive(Debug)]
pub struct SetupError {
    pub message: String,
}

/// The User-Agent that every probe sends.
pub const USER_AGENT: &'static str = "rust-health-checker/0.1.0";

/// Probes URLs through one client shared by every probe.
pub struct HealthChecker {
    client: reqwest::Client,
    timeout: Duration,
}

/// One probe in flight: the URL, and when it was launched.
pub struct Probe {
    url: String,
    launched_at: i64,
    started: Instant,
}

impl Probe {
    pub closed spec fn url(&self) -> Seq<char> {
        self.url@
    }

    /// The UTC instant of launch, in milliseconds since the Unix epoch.
    pub closed spec fn launched_at(&self) -> i64 {
        self.launched_at
    }

    /// What an outcome of this probe holds for `reply`, whatever its timing.
    pub open spec fn settled_by(
        &self,
        reply: Result<reqwest::Response, reqwest::Error>,
        r: HealthCheck,
    ) -> bool {
        &&& r.wf()
        &&& r.url@ == self.url()
        &&& r.timestamp >= self.launched_at()
        &&& match reply {
            Ok(_) => {
                &&& r.status_code matches Some(code)
                &&& 100 <= code <= 999
                &&& r.is_up() <==> is_success_code(code)
                &&& !is_success_code(code) ==> text_of(r.error) == Some(http_error_text(code))
            },
            Err(_) => {
                &&& r.is_down()
                &&& r.status_code is None
                &&& r.error matches Some(e) && e@.len() > 0
            },
        }
    }

    pub fn url_text(&self) -> (r: &str)
        ensures
            r@ == self.url(),
    {
        self.url.as_str()
    }

    /// Turns the probe's reply into its outcome: the response time runs from
    /// launch to now, and the outcome is stamped with the completion instant.
    pub fn complete(self, reply: Result<reqwest::Response, reqwest::Error>) -> (r: HealthCheck)
        ensures
            self.settled_by(reply, r),
    {
        let result: Result<u16, String> = match &reply {
            Ok(resp) => Ok(response_status(resp)),
            Err(e) => Err(error_message(e)),
        };
        let elapsed = elapsed_since(&self.started);
        let ms = duration_millis(&elapsed);
        let timestamp = completion_time(self.launched_at, ms);
        HealthCheck::from_result(self.url, result, ms, timestamp)
    }
}

impl HealthChecker {
    pub closed spec fn timeout_spec(&self) -> Duration {
        self.timeout
    }

    /// A checker whose client bounds each request by `timeout` and sends
    /// `USER_AGENT`.
    pub fn new(timeout: Duration) -> (r: Result<HealthChecker, SetupError>)
        ensures
            r matches Ok(c) ==> c.timeout_spec() == timeout,
            r matches Err(e) ==> e.message@.len() > 0,
    {
        let b = with_user_agent(with_timeout(client_builder(), timeout), USER_AGENT);
        match build_client(b) {
            Ok(client) => Ok(HealthChecker { client, timeout }),
            Err(e) => Err(SetupError { message: error_message(&e) }),
        }
    }

    pub fn timeout(&self) -> (r: Duration)
        ensures
            r == self.timeout_spec(),
    {
        self.timeout
    }

    /// Starts one probe of `url`: notes the launch instant and hands back the
    /// request to send.
    pub fn launch(&self, url: &str) -> (r: (Probe, reqwest::RequestBuilder))
        ensures
            r.0.url() == url@,
    {
        let launched_at = utc_now_millis();
        let request = get_request(&self.client, url);
        let started = instant_now();
        (Probe { url: String::from_str(url), launched_at, started }, request)
    }

    /// Starts one probe per URL, in order, before any is awaited.
    pub fn launch_all(&self, urls: &Vec<String>) -> (r: (Vec<Probe>, Vec<reqwest::RequestBuilder>))
        ensures
            r.0.len() == urls.len(),
            r.1.len() == urls.len(),
            forall|i: int| 0 <= i < urls.len() ==> #[trigger] r.0[i].url() == urls[i]@,
    {
        let mut probes: Vec<Probe> = Vec::new();
        let mut requests: Vec<reqwest::RequestBuilder> = Vec::new();
        let mut i: usize = 0;
        while i < urls.len()
            invariant
                i <= urls.len(),
                probes.len() == i,
                requests.len() == i,
                forall|j: int| 0 <= j < i ==> #[trigger] probes[j].url() == urls[j]@,
            decreases urls.len() - i,
        {
            let (probe, request) = self.launch(urls[i].as_str());
            probes.push(probe);
            requests.push(request);
            i = i + 1;
        }
        (probes, requests)
    }
}

/// Settles each probe with the reply at the same place, keeping the order of
/// the probes whatever order the replies arrived in.
pub fn complete_all(
    probes: Vec<Probe>,
    replies: Vec<Result<reqwest::Response, reqwest::Error>>,
) -> (r: Vec<HealthCheck>)
    requires
        probes.len() == replies.len(),
    ensures
        r.len() == probes.len(),
        forall|i: int| 0 <= i < r.len() ==> #[trigger] probes[i].settled_by(replies[i], r[i]),
{
    let ghost all_probes = probes@;
    let ghost all_replies = replies@;
    let ghost n = probes.len();
    let mut probes = probes;
    let mut replies = replies;
    let mut out: Vec<HealthCheck> = Vec::new();
    while probes.len() > 0
        invariant
            out.len() + probes.len() == n,
            probes.len() == replies.len(),
            n == all_probes.len(),
            n == all_replies.len(),
            probes@ == all_probes.subrange(out.len() as int, n as int),
            replies@ == all_replies.subrange(out.len() as int, n as int),
            forall|i: int|
                0 <= i < out.len() ==> #[trigger] all_probes[i].settled_by(all_replies[i], out[i]),
        decreases probes.len(),
    {
        let probe = probes.remove(0);
        let reply = replies.remove(0);
        let outcome = probe.complete(reply);
        out.push(outcome);
    }
    out
}

/// A batch keeps the input order: launching probes for `urls` and settling
/// them with their replies gives one outcome per URL, duplicates and the empty
/// list included, and the outcome at each place echoes the URL at that place.
pub proof fn batch_keeps_input_order(
    urls: Seq<String>,
    probes: Seq<Probe>,
    replies: Seq<Result<reqwest::Response, reqwest::Error>>,
    outcomes: Seq<HealthCheck>,
)
    requires
        probes.len() == urls.len(),
        forall|i: int| 0 <= i < urls.len() ==> #[trigger] probes[i].url() == urls[i]@,
        replies.len() == probes.len(),
        outcomes.len() == probes.len(),
        forall|i: int| 0 <= i < outcomes.len() ==> #[trigger] probes[i].settled_by(replies[i], outcomes[i]),
    ensures
        outcomes.len() == urls.len(),
        forall|i: int| 0 <= i < urls.len() ==> #[trigger] outcomes[i].url@ == urls[i]@,
{
    assert forall|i: int| 0 <= i < urls.len() implies #[trigger] outcomes[i].url@ == urls[i]@ by {
        assert(probes[i].settled_by(replies[i], outcomes[i]));
    }
}

/// Every outcome of a probe took a non-negative time and is stamped no
/// earlier than the probe's launch.
pub proof fn outcome_follows_launch(
    probe: Probe,
    reply: Result<reqwest::Response, reqwest::Error>,
    outcome: HealthCheck,
)
    requires
        probe.settled_by(reply, outcome),
    ensures
        outcome.response_time_ms >= 0,
        outcome.timestamp >= probe.launched_at(),
{
}

/// A transport failure gives a DOWN outcome with no status code and a
/// non-empty error.
pub proof fn transport_failure_is_down(probe: Probe, e: reqwest::Error, outcome: HealthCheck)
    requires
        probe.settled_by(Err(e), outcome),
    ensures
        outcome.is_down(),
        outcome.status_code is None,
        outcome.error matches Some(msg) && msg@.len() > 0,
{
}

/// The URLs probed when none are given.
pub fn get_default_urls() -> (r: Vec<String>)
    ensures
        r.len() == 3,
        r[0]@ == "https://httpbin.org/status/200"@,
        r[1]@ == "https://google.com"@,
        r[2]@ == "https://github.com"@,
{
    vec![
        String::from_str("https://httpbin.org/status/200"),
        String::from_str("https://google.com"),
        String::from_str("https://github.com"),
    ]
}

/// The URLs to probe: `given`, or the default set when `given` is empty.
pub fn urls_or_default(given: Vec<String>) -> (r: Vec<String>)
    ensures
        given.len() > 0 ==> r@ == given@,
        given.len() == 0 ==> r.len() == 3 && r[0]@ == "https://httpbin.org/status/200"@
            && r[1]@ == "https://google.com"@ && r[2]@ == "https://github.com"@,
{
    if given.len() == 0 {
        get_default_urls()
    } else {
        given
    }
}

} // verus!
