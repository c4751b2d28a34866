//! The quote page: the profile of one symbol, embedded in the page as a
//! line of script.

use crate::error::YahooError;
use crate::text::{
    chars_of, cut_end, cut_start, leading, skip_leading, skip_repeated, skip_trailing,
    starts_with, strip_repeated, trim, Class,
};
use crate::yahoo::address::{extend, is_built, with_pair, Built};
use vstd::prelude::*;

verus! {

/// The name of the variable that the page assigns its state to.
pub const DATA_VAR: &'static str = "root.App.main";

/// Where the quote pages are found, unless the caller says otherwise.
pub const BASE_URL: &'static str = "https://finance.yahoo.com";

#[derive(Debug, Clone, PartialEq)]
pub struct QuoteType {
    /// The long name of the security.
    pub name: String,
    /// What kind of security it is, which decides the kind of its profile.
    pub kind: String,
}

#[derive(Debug, Clone, PartialEq)]
pub struct CompanyProfile {
    pub address1: Option<String>,
    pub address2: Option<String>,
    pub city: Option<String>,
    pub state: Option<String>,
    pub country: Option<String>,
    pub zip: Option<String>,
    pub employees: Option<u32>,
    pub sector: Option<String>,
    pub industry: Option<String>,
    pub summary: Option<String>,
    pub website: Option<String>,
}

#[derive(Debug, Clone, PartialEq)]
pub struct FundProfile {
    /// The legal type of the fund.
    pub kind: String,
    pub family: Option<String>,
}

#[derive(Debug, Clone, PartialEq)]
pub struct QuoteSummaryStore {
    pub fund_profile: Option<FundProfile>,
    pub company_profile: Option<CompanyProfile>,
    pub quote_type: QuoteType,
}

#[derive(Debug, Clone, PartialEq)]
pub struct Stores {
    pub quote_summary_store: QuoteSummaryStore,
}

/// The address of a symbol's quote page: `/quote/` and the symbol after
/// `base`, and the symbol once more as the parameter `p`.
pub open spec fn scrape_query(base: Seq<char>, symbol: Seq<char>) -> Built {
    with_pair(base + "/quote/"@ + symbol, "p"@, symbol)
}

/// The address to fetch for the quote page of `symbol`.
pub fn scrape(base: &str, symbol: &str) -> (r: Result<String, YahooError>)
    ensures
        is_built(r, scrape_query(base@, symbol@)),
{
    let mut page = base.to_owned();
    page.append("/quote/");
    page.append(symbol);
    extend(page.as_str(), "p", symbol)
}

/// The first line of a text: what stands before its first line feed.
pub open spec fn first_line(body: Seq<char>) -> Seq<char> {
    body.take(leading(body, Class::InLine) as int)
}

/// Whether a line, white space at its ends aside, starts with the name of
/// the state variable.
pub open spec fn is_state_line(line: Seq<char>) -> bool {
    DATA_VAR@.is_prefix_of(trim(line))
}

/// What a state line assigns: the line without white space at its ends,
/// without the name of the variable at its start (as often as it stands
/// there), without the spaces and equals signs that follow, and without
/// semicolons at its end.
pub open spec fn assigned(line: Seq<char>) -> Seq<char> {
    cut_end(
        cut_start(strip_repeated(trim(line), DATA_VAR@), Class::Assignment),
        Class::Terminator,
    )
}

/// The state that a page embeds: what its first state line assigns, if it
/// has such a line.
pub open spec fn state_in(body: Seq<char>) -> Option<Seq<char>>
    decreases body.len(),
{
    let line = first_line(body);
    if is_state_line(line) {
        Some(assigned(line))
    } else if line.len() < body.len() {
        state_in(body.skip(line.len() as int + 1))
    } else {
        None
    }
}

/// Finds the state that a page embeds, as text still to be parsed. A page
/// without a state line lacks the data.
pub fn embedded_state(body: &str) -> (r: Result<String, YahooError>)
    ensures
        match state_in(body@) {
            Some(state) => r matches Ok(text) && text@ == state,
            None => r matches Err(e) && e.is_missing_data("No quote data"@),
        },
{
    let text = chars_of(body);
    let marker = chars_of(DATA_VAR);
    proof {
        reveal_strlit("root.App.main");
    }
    let n = text.len();
    let mut start: usize = 0;
    assert(text@.skip(0) =~= body@);
    loop
        invariant
            start <= n == text.len(),
            text@ == body@,
            marker@ == DATA_VAR@,
            marker.len() > 0,
            state_in(body@) == state_in(text@.skip(start as int)),
        decreases n - start,
    {
        let ghost rest = text@.skip(start as int);
        let end = skip_leading(&text, start, n, Class::InLine);
        assert(rest =~= text@.subrange(start as int, n as int));
        assert(first_line(rest) =~= text@.subrange(start as int, end as int));
        let from = skip_leading(&text, start, end, Class::Whitespace);
        let to = skip_trailing(&text, from, end, Class::Whitespace);
        assert(trim(first_line(rest)) == text@.subrange(from as int, to as int));
        if starts_with(&text, from, to, &marker) {
            let named = skip_repeated(&text, from, to, &marker);
            let given = skip_leading(&text, named, to, Class::Assignment);
            let until = skip_trailing(&text, given, to, Class::Terminator);
            assert(assigned(first_line(rest)) == text@.subrange(given as int, until as int));
            return Ok(body.substring_char(given, until).to_owned());
        }
        if end >= n {
            return Err(YahooError::MissingData { reason: "No quote data".to_owned() });
        }
        assert(rest.skip(first_line(rest).len() as int + 1) =~= text@.skip(end + 1));
        start = end + 1;
    }
}

} // verus!
