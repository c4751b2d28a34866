//! The failures that any stage can report.

use crate::interval::Interval;
use vstd::prelude::*;

verus! {

/// `url::ParseError`, carried through as an opaque value.
#[verifier::external_type_specification]
#[verifier::external_body]
pub struct ExUrlParseError(url::ParseError);

/// `serde_json::Error`, carried through as an opaque value.
#[verifier::external_type_specification]
#[verifier::external_body]
pub struct ExJsonError(serde_json::Error);

/// `reqwest::Error`, carried through as an opaque value.
#[verifier::external_type_specification]
#[verifier::external_body]
pub struct ExRequestError(reqwest::Error);

/// Every way in which a request for prices or for a profile can fail.
#[allow(inconsistent_fields)]
#[derive(Debug)]
pub enum YahooError {
    /// The body of a reply was not the JSON that was expected.
    BadData { source: serde_json::Error },
    /// The service answered with a status outside 200..=299.
    CallFailed { url: String, status: u16 },
    /// The chart service answered without a result.
    ChartFailed { description: String },
    /// Something could not be put together: the columns of a frame, or an
    /// address too long to take its parameters.
    InternalLogic { reason: String },
    /// An address could not be built.
    InternalURL { url: String, source: url::ParseError },
    /// The end of a range is not after its start.
    InvalidStartDate,
    /// Something that has to be there is absent or out of step.
    MissingData { reason: String },
    /// An intraday interval was asked of the daily history.
    NoIntraday { interval: Interval },
    /// No reply was obtained.
    RequestFailed { source: reqwest::Error },
    /// A reply that nothing accounts for. No stage reports it.
    UnexectedFailure { url: String, code: u16 },
    /// The body of a reply could not be read as text.
    UnexpectedErrorRead { url: String, source: reqwest::Error },
    /// The chart service answered with an empty list of results.
    UnexpectedErrorYahoo,
    /// Kept for what has no other name. No stage reports it.
    Unknown,
    /// The security is neither a company nor a fund.
    UnsupportedSecurity { kind: String },
}

impl YahooError {
    /// This is `MissingData` with the given reason.
    pub open spec fn is_missing_data(self, reason: Seq<char>) -> bool {
        self matches YahooError::MissingData { reason: r } && r@ == reason
    }

    /// This is `InternalLogic` with the given reason.
    pub open spec fn is_internal_logic(self, reason: Seq<char>) -> bool {
        self matches YahooError::InternalLogic { reason: r } && r@ == reason
    }

    /// This is `CallFailed` for the given address and status.
    pub open spec fn is_call_failed(self, url: Seq<char>, status: u16) -> bool {
        self matches YahooError::CallFailed { url: u, status: s } && u@ == url && s == status
    }

    /// This is `RequestFailed` with the given cause.
    pub open spec fn is_request_failed(self, source: reqwest::Error) -> bool {
        self matches YahooError::RequestFailed { source: s } && s == source
    }

    /// This is `UnexpectedErrorRead` for the given address and cause.
    pub open spec fn is_unexpected_error_read(self, url: Seq<char>, source: reqwest::Error) -> bool {
        self matches YahooError::UnexpectedErrorRead { url: u, source: s } && u@ == url && s
            == source
    }

    /// This is `BadData` with the given cause.
    pub open spec fn is_bad_data(self, source: serde_json::Error) -> bool {
        self matches YahooError::BadData { source: s } && s == source
    }

    /// This is `ChartFailed` with the given description.
    pub open spec fn is_chart_failed(self, description: Seq<char>) -> bool {
        self matches YahooError::ChartFailed { description: d } && d@ == description
    }

    /// This is `UnsupportedSecurity` for the given kind.
    pub open spec fn is_unsupported_security(self, kind: Seq<char>) -> bool {
        self matches YahooError::UnsupportedSecurity { kind: k } && k@ == kind
    }

    /// This is `InternalURL` for the given address and cause.
    pub open spec fn is_internal_url(self, url: Seq<char>, source: url::ParseError) -> bool {
        self matches YahooError::InternalURL { url: u, source: s } && u@ == url && s == source
    }
}

} // verus!
