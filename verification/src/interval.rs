//! The windows of time that a history can be asked for.

use vstd::prelude::*;

verus! {

/// A window of time, named as the service names it.
#[allow(non_camel_case_types)]
#[derive(Debug, Clone, Copy, PartialEq, Eq, Structural)]
pub enum Interval {
    _1m,
    _2m,
    _5m,
    _15m,
    _30m,
    _60m,
    _90m,
    _1d,
    _5d,
    _1mo,
    _3mo,
    _6mo,
    _1y,
    _2y,
    _5y,
    _10y,
    _ytd,
    _max,
}

impl Interval {
    /// Whether the window is shorter than a day.
    pub open spec fn intraday(self) -> bool {
        self is _1m || self is _2m || self is _5m || self is _15m || self is _30m
            || self is _60m || self is _90m
    }

    /// The name by which the service knows the window.
    pub open spec fn label(self) -> Seq<char> {
        match self {
            Interval::_1m => "1m"@,
            Interval::_2m => "2m"@,
            Interval::_5m => "5m"@,
            Interval::_15m => "15m"@,
            Interval::_30m => "30m"@,
            Interval::_60m => "60m"@,
            Interval::_90m => "90m"@,
            Interval::_1d => "1d"@,
            Interval::_5d => "5d"@,
            Interval::_1mo => "1mo"@,
            Interval::_3mo => "3mo"@,
            Interval::_6mo => "6mo"@,
            Interval::_1y => "1y"@,
            Interval::_2y => "2y"@,
            Interval::_5y => "5y"@,
            Interval::_10y => "10y"@,
            Interval::_ytd => "ytd"@,
            Interval::_max => "max"@,
        }
    }

    pub fn is_intraday(&self) -> (r: bool)
        ensures
            r == self.intraday(),
    {
        match self {
            Interval::_1m
            | Interval::_2m
            | Interval::_5m
            | Interval::_15m
            | Interval::_30m
            | Interval::_60m
            | Interval::_90m => true,
            _ => false,
        }
    }

    pub fn to_string(&self) -> (r: String)
        ensures
            r@ == self.label(),
    {
        let name: &str = match self {
            Interval::_1m => "1m",
            Interval::_2m => "2m",
            Interval::_5m => "5m",
            Interval::_15m => "15m",
            Interval::_30m => "30m",
            Interval::_60m => "60m",
            Interval::_90m => "90m",
            Interval::_1d => "1d",
            Interval::_5d => "5d",
            Interval::_1mo => "1mo",
            Interval::_3mo => "3mo",
            Interval::_6mo => "6mo",
            Interval::_1y => "1y",
            Interval::_2y => "2y",
            Interval::_5y => "5y",
            Interval::_10y => "10y",
            Interval::_ytd => "ytd",
            Interval::_max => "max",
        };
        name.to_owned()
    }
}

} // verus!
