//! The outcome of probing one URL at one instant, and how a probe's result is
//! classified into one.

use crate::clock::{clamp_millis, duration_millis, utc_now_millis, whole_millis};
use core::time::Duration;
use vstd::prelude::*;
use vstd::string::*;

verus! {

/// The status text of a healthy outcome.
pub open spec fn up_text() -> Seq<char> {
    seq!['U', 'P']
}

/// The status text of an unhealthy outcome.
pub open spec fn down_text() -> Seq<char> {
    seq!['D', 'O', 'W', 'N']
}

/// A status code in the 2xx class.
pub open spec fn is_success_code(code: u16) -> bool {
    200 <= code <= 299
}

/// The decimal digit `d` as a character.
pub open spec fn digit_char(d: nat) -> char {
    if d == 0 {
        '0'
    } else if d == 1 {
        '1'
    } else if d == 2 {
        '2'
    } else if d == 3 {
        '3'
    } else if d == 4 {
        '4'
    } else if d == 5 {
        '5'
    } else if d == 6 {
        '6'
    } else if d == 7 {
        '7'
    } else if d == 8 {
        '8'
    } else {
        '9'
    }
}

/// `n` written in decimal, without leading zeros.
pub open spec fn decimal(n: nat) -> Seq<char>
    decreases n,
{
    if n < 10 {
        seq![digit_char(n)]
    } else {
        decimal(n / 10).push(digit_char(n % 10))
    }
}

/// The error text of an outcome whose response carried a non-2xx code.
pub open spec fn http_error_text(code: u16) -> Seq<char> {
    seq!['H', 'T', 'T', 'P', ' '] + decimal(code as nat)
}

/// The characters of an optional string.
pub open spec fn text_of(o: Option<String>) -> Option<Seq<char>> {
    match o {
        Some(s) => Some(s@),
        None => None,
    }
}

/// The result of probing one URL.
///
/// `timestamp` is the UTC instant at which the probe completed, in
/// milliseconds since the Unix epoch.
#[derive(Debug, Clone)]
pub struct HealthCheck {
    pub url: String,
    pub status: String,
    pub status_code: Option<u16>,
    pub response_time_ms: u64,
    pub timestamp: i64,
    pub error: Option<String>,
}

impl HealthCheck {
    pub open spec fn is_up(&self) -> bool {
        self.status@ == up_text()
    }

    pub open spec fn is_down(&self) -> bool {
        self.status@ == down_text()
    }

    /// An UP outcome has a 2xx code and no error; a DOWN outcome has an
    /// error, and a code only when that code is not 2xx.
    pub open spec fn wf(&self) -> bool {
        ||| {
            &&& self.is_up()
            &&& self.status_code matches Some(c) && is_success_code(c)
            &&& self.error is None
        }
        ||| {
            &&& self.is_down()
            &&& self.error is Some
            &&& self.status_code matches Some(c) ==> !is_success_code(c)
        }
    }

    /// The outcome that `result` gives: `Ok(code)` when a response with
    /// that status code came back, `Err(message)` on a transport failure.
    pub open spec fn classifies(
        &self,
        url: Seq<char>,
        result: Result<u16, String>,
        response_time_ms: u64,
        timestamp: i64,
    ) -> bool {
        &&& self.url@ == url
        &&& self.response_time_ms == response_time_ms
        &&& self.timestamp == timestamp
        &&& match result {
            Ok(code) => {
                &&& self.status_code == Some(code)
                &&& if is_success_code(code) {
                    self.is_up() && self.error is None
                } else {
                    self.is_down() && text_of(self.error) == Some(http_error_text(code))
                }
            },
            Err(message) => {
                &&& self.is_down()
                &&& self.status_code is None
                &&& text_of(self.error) == Some(message@)
            },
        }
    }

    /// An UP outcome for `url`, stamped now.
    pub fn new_success(url: String, status_code: u16, response_time: Duration) -> (r: HealthCheck)
        requires
            is_success_code(status_code),
        ensures
            r.wf(),
            r.is_up(),
            r.url@ == url@,
            r.status_code == Some(status_code),
            r.response_time_ms == clamp_millis(whole_millis(response_time)),
            r.error is None,
    {
        let ms = duration_millis(&response_time);
        let now = utc_now_millis();
        HealthCheck {
            url,
            status: up_string(),
            status_code: Some(status_code),
            response_time_ms: ms,
            timestamp: now,
            error: None,
        }
    }

    /// A DOWN outcome for `url` with no status code, stamped now.
    pub fn new_failure(url: String, error: String, response_time: Duration) -> (r: HealthCheck)
        ensures
            r.wf(),
            r.is_down(),
            r.url@ == url@,
            r.status_code is None,
            r.response_time_ms == clamp_millis(whole_millis(response_time)),
            text_of(r.error) == Some(error@),
    {
        let ms = duration_millis(&response_time);
        let now = utc_now_millis();
        HealthCheck {
            url,
            status: down_string(),
            status_code: None,
            response_time_ms: ms,
            timestamp: now,
            error: Some(error),
        }
    }

    /// Classifies the result of one probe of `url`: a 2xx code is UP, any
    /// other code is DOWN with the error "HTTP <code>", and a transport
    /// failure is DOWN with no code and the failure's message.
    pub fn from_result(
        url: String,
        result: Result<u16, String>,
        response_time_ms: u64,
        timestamp: i64,
    ) -> (r: HealthCheck)
        ensures
            r.classifies(url@, result, response_time_ms, timestamp),
            r.wf(),
    {
        match result {
            Ok(code) => {
                if 200 <= code && code <= 299 {
                    HealthCheck {
                        url,
                        status: up_string(),
                        status_code: Some(code),
                        response_time_ms,
                        timestamp,
                        error: None,
                    }
                } else {
                    HealthCheck {
                        url,
                        status: down_string(),
                        status_code: Some(code),
                        response_time_ms,
                        timestamp,
                        error: Some(http_error(code)),
                    }
                }
            },
            Err(message) => HealthCheck {
                url,
                status: down_string(),
                status_code: None,
                response_time_ms,
                timestamp,
                error: Some(message),
            },
        }
    }
}

/// A response with a 2xx code gives an UP outcome carrying that code and no
/// error.
pub proof fn success_reply_is_up(
    r: HealthCheck,
    url: Seq<char>,
    code: u16,
    response_time_ms: u64,
    timestamp: i64,
)
    requires
        r.classifies(url, Ok(code), response_time_ms, timestamp),
        200 <= code <= 299,
    ensures
        r.is_up(),
        r.status_code matches Some(c) && 200 <= c <= 299,
        r.error is None,
{
}

/// A response with a code outside 2xx gives a DOWN outcome carrying that code
/// and a non-empty error.
pub proof fn error_reply_is_down(
    r: HealthCheck,
    url: Seq<char>,
    code: u16,
    response_time_ms: u64,
    timestamp: i64,
)
    requires
        r.classifies(url, Ok(code), response_time_ms, timestamp),
        !(200 <= code <= 299),
    ensures
        r.is_down(),
        r.status_code == Some(code),
        r.error matches Some(e) && e@.len() > 0,
{
    assert(http_error_text(code).len() > 0);
}

/// A transport failure gives a DOWN outcome with no status code, whose error
/// is the failure's message.
pub proof fn failed_reply_is_down(
    r: HealthCheck,
    url: Seq<char>,
    message: String,
    response_time_ms: u64,
    timestamp: i64,
)
    requires
        r.classifies(url, Err(message), response_time_ms, timestamp),
    ensures
        r.is_down(),
        r.status_code is None,
        text_of(r.error) == Some(message@),
{
}

fn up_string() -> (r: String)
    ensures
        r@ == up_text(),
{
    proof {
        reveal_strlit("UP");
    }
    let r = String::from_str("UP");
    assert(r@ =~= up_text());
    r
}

fn down_string() -> (r: String)
    ensures
        r@ == down_text(),
{
    proof {
        reveal_strlit("DOWN");
    }
    let r = String::from_str("DOWN");
    assert(r@ =~= down_text());
    r
}

/// The error text for a response that carried `code`.
pub fn http_error(code: u16) -> (r: String)
    ensures
        r@ == http_error_text(code),
{
    proof {
        reveal_strlit("HTTP ");
    }
    let mut r = String::from_str("HTTP ");
    assert(r@ =~= seq!['H', 'T', 'T', 'P', ' ']);
    append_decimal(&mut r, code as u64);
    r
}

fn digit_str(d: u64) -> (r: &'static str)
    requires
        d < 10,
    ensures
        r@ == seq![digit_char(d as nat)],
{
    proof {
        reveal_strlit("0");
        reveal_strlit("1");
        reveal_strlit("2");
        reveal_strlit("3");
        reveal_strlit("4");
        reveal_strlit("5");
        reveal_strlit("6");
        reveal_strlit("7");
        reveal_strlit("8");
        reveal_strlit("9");
    }
    let r = if d == 0 {
        "0"
    } else if d == 1 {
        "1"
    } else if d == 2 {
        "2"
    } else if d == 3 {
        "3"
    } else if d == 4 {
        "4"
    } else if d == 5 {
        "5"
    } else if d == 6 {
        "6"
    } else if d == 7 {
        "7"
    } else if d == 8 {
        "8"
    } else {
        "9"
    };
    assert(r@ =~= seq![digit_char(d as nat)]);
    r
}

/// Appends `n` in decimal to `s`.
pub fn append_decimal(s: &mut String, n: u64)
    ensures
        final(s)@ == old(s)@ + decimal(n as nat),
    decreases n,
{
    let ghost start = s@;
    if n >= 10 {
        append_decimal(s, n / 10);
    }
    let digit = digit_str(n % 10);
    s.append(digit);
    proof {
        if n >= 10 {
            assert(decimal(n as nat) == decimal((n / 10) as nat).push(digit_char((n % 10) as nat)));
            assert(s@ =~= start + decimal(n as nat));
        } else {
            assert(s@ =~= start + decimal(n as nat));
        }
    }
}

} // verus!
