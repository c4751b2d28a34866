//! The chart service: the time series of one symbol.
//!
//! Prices are carried through untouched, so the records are generic in the
//! type `P` of a price.

use crate::decimal::{decimal, to_decimal};
use crate::error::YahooError;
use crate::interval::Interval;
use crate::yahoo::address::{
    built_from, extend, internal_url, is_built, join_url, joined_url, with_pair, Built,
};
use vstd::prelude::*;

verus! {

/// Where the chart service is found, unless the caller says otherwise.
pub const BASE_URL: &'static str = "https://query1.finance.yahoo.com/v8/finance/chart/";

/// The columns of one quote. Each is meant to be as long as the record's
/// timestamps; an entry is `None` where the service had no value.
#[derive(Debug, Clone, PartialEq)]
pub struct OHLCV<P> {
    pub opens: Vec<Option<P>>,
    pub highs: Vec<Option<P>>,
    pub lows: Vec<Option<P>>,
    pub closes: Vec<Option<P>>,
    pub volumes: Vec<Option<u64>>,
}

#[derive(Debug, Clone, PartialEq)]
pub struct Indicators<P> {
    pub quotes: Vec<OHLCV<P>>,
}

/// The time series of one symbol as the service sent it: seconds since the
/// epoch, oldest first, and the quotes that go with them.
#[derive(Debug, Clone, PartialEq)]
pub struct ChartRecord<P> {
    pub timestamps: Vec<i64>,
    pub indicators: Indicators<P>,
}

/// A record laid out flat: the timestamps and the five columns of the first
/// quote. A record without a quote has five empty columns.
pub struct Columns<P> {
    pub timestamps: Seq<i64>,
    pub opens: Seq<Option<P>>,
    pub highs: Seq<Option<P>>,
    pub lows: Seq<Option<P>>,
    pub closes: Seq<Option<P>>,
    pub volumes: Seq<Option<u64>>,
}

impl<P> View for ChartRecord<P> {
    type V = Columns<P>;

    open spec fn view(&self) -> Columns<P> {
        if self.indicators.quotes@.len() == 0 {
            Columns {
                timestamps: self.timestamps@,
                opens: Seq::empty(),
                highs: Seq::empty(),
                lows: Seq::empty(),
                closes: Seq::empty(),
                volumes: Seq::empty(),
            }
        } else {
            let quote = self.indicators.quotes@[0];
            Columns {
                timestamps: self.timestamps@,
                opens: quote.opens@,
                highs: quote.highs@,
                lows: quote.lows@,
                closes: quote.closes@,
                volumes: quote.volumes@,
            }
        }
    }
}

/// What the service says went wrong.
#[derive(Debug, Clone, PartialEq)]
pub struct ChartError {
    pub code: String,
    pub description: String,
}

/// What a reply holds: a list of results, of which the first is the record,
/// or what went wrong. `R` is the record as the caller read it.
#[derive(Debug, Clone, PartialEq)]
pub struct Chart<R> {
    pub result: Option<Vec<R>>,
    pub error: Option<ChartError>,
}

/// The whole of a reply of the chart service.
#[derive(Debug, Clone, PartialEq)]
pub struct ChartResponse<R> {
    pub chart: Chart<R>,
}

/// The address of a symbol's chart: `symbol` joined to the address `base`.
/// Where `base` is no address or nothing can be joined to it, the failure is
/// reported for `base`.
pub open spec fn query(base: Seq<char>, symbol: Seq<char>) -> Built {
    built_from(base, joined_url(base, symbol))
}

/// The address of a symbol's chart under `base`.
pub fn build_query(base: &str, symbol: &str) -> (r: Result<String, YahooError>)
    ensures
        is_built(r, query(base@, symbol@)),
{
    internal_url(base, join_url(base, symbol))
}

/// `built`, if it is an address, with one more pair in its query.
pub open spec fn and_pair(built: Built, name: Seq<char>, value: Seq<char>) -> Built {
    match built {
        Built::Address(url) => with_pair(url, name, value),
        failure => failure,
    }
}

/// The address that asks for the daily bars of a named window: `range` is
/// the window, and `interval` is always a day.
pub open spec fn daily_query(base: Seq<char>, symbol: Seq<char>, period: Interval) -> Built {
    and_pair(and_pair(query(base, symbol), "range"@, period.label()), "interval"@, "1d"@)
}

/// The address that asks for the daily bars between two times, in seconds
/// since the epoch: `period1` is the start, `period2` the end, and `interval`
/// is always a day.
pub open spec fn daily_range_query(base: Seq<char>, symbol: Seq<char>, start: int, end: int)
    -> Built {
    and_pair(
        and_pair(
            and_pair(query(base, symbol), "period1"@, decimal(start)),
            "period2"@,
            decimal(end),
        ),
        "interval"@,
        "1d"@,
    )
}

/// The address to fetch for the daily bars of `symbol` over `period`.
pub fn load_daily(base: &str, symbol: &str, period: Interval) -> (r: Result<String, YahooError>)
    ensures
        is_built(r, daily_query(base@, symbol@, period)),
{
    let lookup = build_query(base, symbol)?;
    let ranged = extend(lookup.as_str(), "range", period.to_string().as_str())?;
    extend(ranged.as_str(), "interval", "1d")
}

/// The address to fetch for the daily bars of `symbol` from `start` to
/// `end`, both in seconds since the epoch.
pub fn load_daily_range(base: &str, symbol: &str, start: i64, end: i64) -> (r: Result<
    String,
    YahooError,
>)
    ensures
        is_built(r, daily_range_query(base@, symbol@, start as int, end as int)),
{
    let lookup = build_query(base, symbol)?;
    let from = extend(lookup.as_str(), "period1", to_decimal(start).as_str())?;
    let until = extend(from.as_str(), "period2", to_decimal(end).as_str())?;
    extend(until.as_str(), "interval", "1d")
}

/// Picks the record out of a reply: the first of its results. A reply
/// without results has failed, and one with an empty list of them is not
/// expected.
pub fn load<R>(response: ChartResponse<R>) -> (r: Result<R, YahooError>)
    ensures
        match response.chart.result {
            None => r matches Err(e) && e.is_chart_failed("error block exists without values"@),
            Some(list) => if list@.len() == 0 {
                r matches Err(YahooError::UnexpectedErrorYahoo)
            } else {
                r == Ok::<R, YahooError>(list@[0])
            },
        },
{
    match response.chart.result {
        None => Err(
            YahooError::ChartFailed { description: "error block exists without values".to_owned() },
        ),
        Some(mut list) => {
            if list.len() > 0 {
                Ok(list.swap_remove(0))
            } else {
                Err(YahooError::UnexpectedErrorYahoo)
            }
        },
    }
}

} // verus!
