//! Judging the answer of QCS to a request for an engagement with a QPU: granted, unavailable
//! for a while, unauthorized, or some other error.
use crate::qpu::api::{duration_from_secs, duration_of_secs};
use std::time::Duration;
use vstd::prelude::*;

verus! {

/// How long to wait before asking again when QCS does not say: fifteen minutes.
pub const DEFAULT_RETRY_AFTER_SECS: u64 = 900;

/// What QCS's answer to a request for an engagement means.
#[derive(Debug, PartialEq, Eq)]
pub enum EngagementOutcome {
    /// The engagement was granted; the answer's body holds it.
    Granted,
    /// The QPU is unavailable; try again after this long.
    QuantumProcessorUnavailable(Duration),
    /// The request was not authorized; refreshing the token may help.
    Unauthorized,
    /// Some other error, which the answer's body describes.
    Unknown,
}

/// The value of a string of decimal digits.
pub open spec fn digits_value(digits: Seq<char>) -> int
    decreases digits.len(),
{
    if digits.len() == 0 {
        0
    } else {
        digits_value(digits.drop_last()) * 10 + (digits.last() as int - '0' as int)
    }
}

/// Whether every character of a string is a decimal digit.
pub open spec fn all_digits(text: Seq<char>) -> bool {
    forall|i: int| 0 <= i < text.len() ==> '0' <= #[trigger] text[i] <= '9'
}

/// What parsing a string as a `u64` gives: an optional `+` followed by at least one decimal
/// digit and nothing else, whose value fits.
pub open spec fn parsed_u64(text: Seq<char>) -> Option<u64> {
    let digits = if text.len() > 0 && text[0] == '+' {
        text.drop_first()
    } else {
        text
    };
    if digits.len() > 0 && all_digits(digits) && digits_value(digits) <= u64::MAX {
        Some(digits_value(digits) as u64)
    } else {
        None
    }
}

/// Calls `str::parse::<u64>`, which accepts an optional `+` and then only decimal digits,
/// at least one, whose value fits in a `u64`.
#[verifier::external_body]
fn parse_u64(text: &str) -> (value: Option<u64>)
    ensures
        value == parsed_u64(text@),
{
    text.parse::<u64>().ok()
}

/// Whether an HTTP status is a client error (400 to 499).
pub open spec fn is_client_error(status: u16) -> bool {
    400 <= status <= 499
}

/// Whether an HTTP status is a server error (500 to 599).
pub open spec fn is_server_error(status: u16) -> bool {
    500 <= status <= 599
}

/// What an answer means, by its HTTP status and its `Retry-After` header, if it has one that
/// is text: any status but a client or server error grants the engagement; `503` makes the
/// QPU unavailable for the number of seconds the header gives, or fifteen minutes where it
/// gives none; `401` and `403` are unauthorized; anything else is unknown.
pub fn engagement_outcome(status: u16, retry_after: Option<&str>) -> (outcome: EngagementOutcome)
    ensures
        !is_client_error(status) && !is_server_error(status) ==> outcome
            == EngagementOutcome::Granted,
        status == 503 ==> outcome == EngagementOutcome::QuantumProcessorUnavailable(
            duration_of_secs(
                match retry_after {
                    Some(text) => match parsed_u64(text@) {
                        Some(secs) => secs,
                        None => DEFAULT_RETRY_AFTER_SECS,
                    },
                    None => DEFAULT_RETRY_AFTER_SECS,
                },
            ),
        ),
        status == 401 || status == 403 ==> outcome == EngagementOutcome::Unauthorized,
        (is_client_error(status) || is_server_error(status)) && status != 503 && status != 401
            && status != 403 ==> outcome == EngagementOutcome::Unknown,
{
    let client_error = 400 <= status && status <= 499;
    let server_error = 500 <= status && status <= 599;
    if !client_error && !server_error {
        EngagementOutcome::Granted
    } else if status == 503 {
        let secs = match retry_after {
            Some(text) => match parse_u64(text) {
                Some(secs) => secs,
                None => DEFAULT_RETRY_AFTER_SECS,
            },
            None => DEFAULT_RETRY_AFTER_SECS,
        };
        EngagementOutcome::QuantumProcessorUnavailable(duration_from_secs(secs))
    } else if status == 401 || status == 403 {
        EngagementOutcome::Unauthorized
    } else {
        EngagementOutcome::Unknown
    }
}

} // verus!
