//! The terminal report: a block of text for each outcome of a batch.

use crate::outcome::{append_decimal, decimal, HealthCheck};
use vstd::prelude::*;
use vstd::string::*;

verus! {

/// The text that chrono gives for the UTC instant `ms` milliseconds after the
/// Unix epoch, in the form "YYYY-MM-DD HH:MM:SS UTC".
pub uninterp spec fn utc_stamp_text(ms: i64) -> Seq<char>;

/// Relies on chrono's `DateTime::from_timestamp_millis` and `format`: the
/// instant written as "%Y-%m-%d %H:%M:%S UTC", and an empty string for an
/// instant out of chrono's range. Both depend on `ms` alone.
#[verifier::external_body]
fn utc_stamp(ms: i64) -> (r: String)
    ensures
        r@ == utc_stamp_text(ms),
{
    match chrono::DateTime::from_timestamp_millis(ms) {
        Some(t) => t.format("%Y-%m-%d %H:%M:%S UTC").to_string(),
        None => String::new(),
    }
}

/// The first line of an outcome's block: status, URL, response time and the
/// completion instant.
pub open spec fn summary_text(r: HealthCheck, stamp: Seq<char>) -> Seq<char> {
    r.status@ + seq![' '] + r.url@ + seq![' ', '['] + decimal(r.response_time_ms as nat) + seq![
        ' ',
        'm',
        's',
        ']',
        ' ',
        '-',
        ' ',
    ] + stamp
}

/// The line that reports an outcome's error, if it has one.
pub open spec fn error_line(r: HealthCheck) -> Seq<char> {
    match r.error {
        Some(e) => seq![' ', 'E', 'r', 'r', 'o', 'r', ':', ' '] + e@ + seq!['\n'],
        None => Seq::empty(),
    }
}

/// The line that reports an outcome's status code, if it has one.
pub open spec fn code_line(r: HealthCheck) -> Seq<char> {
    match r.status_code {
        Some(c) => seq![' ', 'S', 't', 'a', 't', 'u', 's', ' ', 'C', 'o', 'd', 'e', ':', ' ']
            + decimal(c as nat) + seq!['\n'],
        None => Seq::empty(),
    }
}

/// An outcome's block: the summary line, then the error line and the code
/// line where they apply, each ended by a newline.
pub open spec fn block_text(r: HealthCheck, stamp: Seq<char>) -> Seq<char> {
    summary_text(r, stamp) + seq!['\n'] + error_line(r) + code_line(r)
}

/// The block for `r`, its completion instant written as `stamp`.
pub fn outcome_block(r: &HealthCheck, stamp: &str) -> (t: String)
    ensures
        t@ == block_text(*r, stamp@),
{
    proof {
        reveal_strlit(" ");
        reveal_strlit(" [");
        reveal_strlit(" ms] - ");
        reveal_strlit("\n");
        reveal_strlit(" Error: ");
        reveal_strlit(" Status Code: ");
    }
    let mut t = r.status.clone();
    t.append(" ");
    t.append(r.url.as_str());
    t.append(" [");
    append_decimal(&mut t, r.response_time_ms);
    t.append(" ms] - ");
    t.append(stamp);
    t.append("\n");
    let ghost head = t@;
    assert(head =~= summary_text(*r, stamp@) + seq!['\n']);
    match &r.error {
        Some(e) => {
            t.append(" Error: ");
            t.append(e.as_str());
            t.append("\n");
        },
        None => {},
    }
    let ghost with_error = t@;
    assert(with_error =~= head + error_line(*r));
    match r.status_code {
        Some(c) => {
            t.append(" Status Code: ");
            append_decimal(&mut t, c as u64);
            t.append("\n");
        },
        None => {},
    }
    assert(t@ =~= with_error + code_line(*r));
    t
}

/// One block per outcome of a batch, in order, each instant written by chrono.
pub fn report_blocks(results: &Vec<HealthCheck>) -> (r: Vec<String>)
    ensures
        r.len() == results.len(),
        forall|i: int|
            0 <= i < results.len() ==> #[trigger] r[i]@ == block_text(
                results[i],
                utc_stamp_text(results[i].timestamp),
            ),
{
    let mut out: Vec<String> = Vec::new();
    let mut i: usize = 0;
    while i < results.len()
        invariant
            i <= results.len(),
            out.len() == i,
            forall|j: int|
                0 <= j < i ==> #[trigger] out[j]@ == block_text(
                    results[j],
                    utc_stamp_text(results[j].timestamp),
                ),
        decreases results.len() - i,
    {
        let stamp = utc_stamp(results[i].timestamp);
        out.push(outcome_block(&results[i], stamp.as_str()));
        i = i + 1;
    }
    out
}

} // verus!
