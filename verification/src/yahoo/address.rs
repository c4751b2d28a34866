//! Addresses, built with the `url` crate.
//!
//! An address is held as its text. What `url` makes of a text is not stated
//! here: each of its answers has a name, and the contracts of this library are
//! written over those names.

use crate::error::YahooError;
use vstd::prelude::*;
use vstd::utf8::encode_utf8;

verus! {

/// The longest text, in bytes, that a pair is appended to, and the longest
/// name and value of a pair.
///
/// `url` counts the places in an address in 32 bits and gives up, without
/// coming back, on an address that it cannot extend within them. An address
/// is at most a few hundred times as long as the text it was parsed from, and
/// a pair at most three times as long as its name and value, so that texts
/// within this limit stay far below that count.
pub const LIMIT: usize = 1_048_576;

/// How many bytes a text takes.
pub open spec fn byte_len(text: Seq<char>) -> nat {
    encode_utf8(text).len()
}

/// The address and the pair are short enough for the pair to be appended.
pub open spec fn extendable(url: Seq<char>, name: Seq<char>, value: Seq<char>) -> bool {
    byte_len(url) <= LIMIT && byte_len(name) <= LIMIT && byte_len(value) <= LIMIT
}

/// What `url::Url::join` makes of `reference` against the address that `base`
/// parses to: the text of the address it gave, or the error of the step that
/// failed, parsing `base` or joining.
pub uninterp spec fn joined_url(base: Seq<char>, reference: Seq<char>) -> Result<
    Seq<char>,
    url::ParseError,
>;

/// The text of the address that `url` parses to, after one more pair was
/// appended to its query with `form_urlencoded::Serializer::append_pair`, or
/// the error that parsing `url` gave.
pub uninterp spec fn url_with_pair(url: Seq<char>, name: Seq<char>, value: Seq<char>) -> Result<
    Seq<char>,
    url::ParseError,
>;

/// `text` is the text that `outcome` holds, or `text` is the error in it.
pub open spec fn same_outcome(
    text: Result<String, url::ParseError>,
    outcome: Result<Seq<char>, url::ParseError>,
) -> bool {
    match text {
        Ok(t) => outcome == Ok::<Seq<char>, url::ParseError>(t@),
        Err(e) => outcome == Err::<Seq<char>, url::ParseError>(e),
    }
}

/// Parses `base` with `url::Url::parse`, calls `url::Url::join` on it and
/// hands back the text of the address. The contract only names the outcome.
#[verifier::external_body]
pub(crate) fn join_url(base: &str, reference: &str) -> (r: Result<String, url::ParseError>)
    ensures
        same_outcome(r, joined_url(base@, reference@)),
{
    url::Url::parse(base)?.join(reference).map(String::from)
}

/// Parses `url` with `url::Url::parse`, appends a pair to its query with
/// `url::Url::query_pairs_mut` and `append_pair`, and hands back the text of
/// the address. The contract only names the outcome. The texts have to be
/// within the limit: on an address too long to be extended, `url` does not
/// come back.
#[verifier::external_body]
pub(crate) fn append_query_pair(url: &str, name: &str, value: &str) -> (r: Result<
    String,
    url::ParseError,
>)
    requires
        extendable(url@, name@, value@),
    ensures
        same_outcome(r, url_with_pair(url@, name@, value@)),
{
    let mut parsed = url::Url::parse(url)?;
    parsed.query_pairs_mut().append_pair(name, value);
    Ok(parsed.into())
}

/// How building an address ends.
pub enum Built {
    /// With the text of the address.
    Address(Seq<char>),
    /// With the text that `url` could not use, and its reason.
    Refused(Seq<char>, url::ParseError),
    /// With a text too long for a pair to be appended.
    TooLong,
}

/// `r` is the address in `built`, or the failure that stands for it:
/// `InternalURL` for what `url` refused, `InternalLogic` for what is too long.
pub open spec fn is_built(r: Result<String, YahooError>, built: Built) -> bool {
    match built {
        Built::Address(text) => r matches Ok(u) && u@ == text,
        Built::Refused(url, source) => r matches Err(e) && e.is_internal_url(url, source),
        Built::TooLong => r matches Err(e) && e.is_internal_logic("Address too long"@),
    }
}

/// An outcome of the `url` crate as an outcome of this library, for the text
/// `url` that was being worked on.
pub open spec fn built_from(url: Seq<char>, outcome: Result<Seq<char>, url::ParseError>) -> Built {
    match outcome {
        Ok(text) => Built::Address(text),
        Err(source) => Built::Refused(url, source),
    }
}

/// Turns what the `url` crate answered while working on `url` into an
/// address or an `InternalURL` failure.
pub fn internal_url(url: &str, outcome: Result<String, url::ParseError>) -> (r: Result<
    String,
    YahooError,
>)
    ensures
        match outcome {
            Ok(text) => r == Ok::<String, YahooError>(text),
            Err(source) => r matches Err(e) && e.is_internal_url(url@, source),
        },
        forall|named: Result<Seq<char>, url::ParseError>|
            same_outcome(outcome, named) ==> is_built(r, built_from(url@, named)),
{
    match outcome {
        Ok(text) => Ok(text),
        Err(source) => Err(YahooError::InternalURL { url: url.to_owned(), source }),
    }
}

/// Appends a pair to the query of an address, where the texts are within
/// the limit.
pub fn add_pair(url: &str, name: &str, value: &str) -> (r: Result<String, YahooError>)
    requires
        extendable(url@, name@, value@),
    ensures
        is_built(r, built_from(url@, url_with_pair(url@, name@, value@))),
{
    internal_url(url, append_query_pair(url, name, value))
}

/// Whether a pair can be appended to an address: whether the texts are
/// within the limit.
pub fn can_extend(url: &str, name: &str, value: &str) -> (r: bool)
    ensures
        r == extendable(url@, name@, value@),
{
    url.as_bytes().len() <= LIMIT && name.as_bytes().len() <= LIMIT && value.as_bytes().len()
        <= LIMIT
}

/// The address `url` with one more pair in its query, if the texts are
/// within the limit.
pub open spec fn with_pair(url: Seq<char>, name: Seq<char>, value: Seq<char>) -> Built {
    if extendable(url, name, value) {
        built_from(url, url_with_pair(url, name, value))
    } else {
        Built::TooLong
    }
}

/// Appends a pair to the query of an address, or reports that the texts
/// are too long for that.
pub fn extend(url: &str, name: &str, value: &str) -> (r: Result<String, YahooError>)
    ensures
        is_built(r, with_pair(url@, name@, value@)),
{
    if can_extend(url, name, value) {
        add_pair(url, name, value)
    } else {
        Err(YahooError::InternalLogic { reason: "Address too long".to_owned() })
    }
}

} // verus!
