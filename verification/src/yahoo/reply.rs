//! What came of a request, step by step: whether a reply arrived and with
//! which status, whether its body could be read, and whether the body held
//! what was expected. The caller makes each step and shows its outcome here.

use crate::error::YahooError;
use vstd::prelude::*;

verus! {

/// Whether a status counts as success.
pub open spec fn is_success(status: u16) -> bool {
    200 <= status < 300
}

/// Turns down a reply whose status is not a success, before its body is
/// read.
pub fn check_status(url: &str, status: u16) -> (r: Result<(), YahooError>)
    ensures
        is_success(status) ==> r is Ok,
        !is_success(status) ==> (r matches Err(e) && e.is_call_failed(url@, status)),
{
    if 200 <= status && status < 300 {
        Ok(())
    } else {
        Err(YahooError::CallFailed { url: url.to_owned(), status })
    }
}

/// What sending a request to `url` came to. The outcome is the reply with
/// its status, or the reason why there is none. A reply is handed on if its
/// status is a success.
pub fn received<R>(url: &str, outcome: Result<(u16, R), reqwest::Error>) -> (r: Result<
    R,
    YahooError,
>)
    ensures
        match outcome {
            Ok((status, reply)) => if is_success(status) {
                r == Ok::<R, YahooError>(reply)
            } else {
                r matches Err(e) && e.is_call_failed(url@, status)
            },
            Err(source) => r matches Err(e) && e.is_request_failed(source),
        },
{
    match outcome {
        Ok((status, reply)) => {
            check_status(url, status)?;
            Ok(reply)
        },
        Err(source) => Err(YahooError::RequestFailed { source }),
    }
}

/// What reading the body of the reply from `url` came to: its text, or the
/// reason why it could not be read.
pub fn body_text(url: &str, outcome: Result<String, reqwest::Error>) -> (r: Result<
    String,
    YahooError,
>)
    ensures
        match outcome {
            Ok(text) => r == Ok::<String, YahooError>(text),
            Err(source) => r matches Err(e) && e.is_unexpected_error_read(url@, source),
        },
{
    match outcome {
        Ok(text) => Ok(text),
        Err(source) => Err(YahooError::UnexpectedErrorRead { url: url.to_owned(), source }),
    }
}

/// What reading a text as JSON came to: the value it holds, or the reason why
/// it holds none of the expected shape.
pub fn decoded<T>(outcome: Result<T, serde_json::Error>) -> (r: Result<T, YahooError>)
    ensures
        match outcome {
            Ok(value) => r == Ok::<T, YahooError>(value),
            Err(source) => r matches Err(e) && e.is_bad_data(source),
        },
{
    match outcome {
        Ok(value) => Ok(value),
        Err(source) => Err(YahooError::BadData { source }),
    }
}

} // verus!
