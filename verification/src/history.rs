//! Daily price history: which request to make, and the bars in a reply.

use crate::error::YahooError;
use crate::interval::Interval;
use crate::yahoo::address::is_built;
use crate::yahoo::chart::{
    daily_query, daily_range_query, load_daily, load_daily_range, ChartRecord, Columns,
};
use vstd::prelude::*;

verus! {

/// The prices of one trading period and the volume traded in it.
#[derive(Debug, Clone, Copy, PartialEq)]
pub struct Bar<P> {
    /// Milliseconds since the epoch.
    pub timestamp: i64,
    pub open: P,
    pub high: P,
    pub low: P,
    pub close: P,
    pub volume: u64,
}

impl<P> Columns<P> {
    /// None of the five columns holds anything.
    pub open spec fn no_columns(self) -> bool {
        self.opens.len() == 0 && self.highs.len() == 0 && self.lows.len() == 0
            && self.closes.len() == 0 && self.volumes.len() == 0
    }

    /// Why the record is turned down, if it is: one side is absent, or the
    /// first column, in the order volume, open, high, low, close, that is not as
    /// long as the timestamps.
    pub open spec fn rejection(self) -> Option<Seq<char>> {
        let rows = self.timestamps.len();
        if rows == 0 && self.no_columns() {
            None
        } else if rows == 0 {
            Some("No timestamp for OHLCV data"@)
        } else if self.no_columns() {
            Some("No OHLCV data"@)
        } else if rows != self.volumes.len() {
            Some("Volume values do not line up with timestamps"@)
        } else if rows != self.opens.len() {
            Some("Open values do not line up with timestamps"@)
        } else if rows != self.highs.len() {
            Some("High values do not line up with the timestamps"@)
        } else if rows != self.lows.len() {
            Some("Low values do not line up with timestamps"@)
        } else if rows != self.closes.len() {
            Some("Close values do not line up with the timestamps"@)
        } else {
            None
        }
    }

    /// Row `i` has all four prices.
    pub open spec fn complete(self, i: int) -> bool {
        self.opens[i] is Some && self.highs[i] is Some && self.lows[i] is Some
            && self.closes[i] is Some
    }

    /// The bar of a complete row `i`: its time in milliseconds, its four
    /// prices, and its volume, which counts as zero where the service sent none.
    pub open spec fn bar(self, i: int) -> Bar<P> {
        Bar {
            timestamp: (self.timestamps[i] * 1000) as i64,
            open: self.opens[i]->0,
            high: self.highs[i]->0,
            low: self.lows[i]->0,
            close: self.closes[i]->0,
            volume: match self.volumes[i] {
                Some(v) => v,
                None => 0,
            },
        }
    }

    /// The bars of the complete rows among the first `n`, in the order of the
    /// rows.
    pub open spec fn bars_upto(self, n: int) -> Seq<Bar<P>>
        decreases n,
    {
        if n <= 0 {
            Seq::empty()
        } else if self.complete(n - 1) {
            self.bars_upto(n - 1).push(self.bar(n - 1))
        } else {
            self.bars_upto(n - 1)
        }
    }

    /// The bars of all complete rows.
    pub open spec fn bars(self) -> Seq<Bar<P>> {
        self.bars_upto(self.timestamps.len() as int)
    }

    /// Every timestamp can be written in milliseconds.
    pub open spec fn timestamps_fit(self) -> bool {
        forall|i: int|
            0 <= i < self.timestamps.len() ==> i64::MIN <= #[trigger] self.timestamps[i] * 1000
                <= i64::MAX
    }

    /// `r` is what aggregating the record gives.
    pub open spec fn aggregated(self, r: Result<Vec<Bar<P>>, YahooError>) -> bool {
        match r {
            Ok(bars) => self.rejection() is None && bars@ == self.bars(),
            Err(e) => self.rejection() matches Some(reason) && e.is_missing_data(reason),
        }
    }
}

impl<P> Columns<P> {
    /// All five columns are as long as the timestamps.
    pub open spec fn aligned(self) -> bool {
        let rows = self.timestamps.len();
        self.volumes.len() == rows && self.opens.len() == rows && self.highs.len() == rows
            && self.lows.len() == rows && self.closes.len() == rows
    }

    /// How many of the rows before `i` are complete, which is the place that
    /// the bar of row `i` takes among the bars.
    pub open spec fn rank(self, i: int) -> int {
        self.bars_upto(i).len() as int
    }

    /// The rank grows by one over a complete row and stays over any other.
    pub proof fn rank_is_monotonic(self, i: int, j: int)
        requires
            0 <= i <= j,
        ensures
            0 <= self.rank(i) <= i,
            self.rank(i) <= self.rank(j),
            i < j && self.complete(i) ==> self.rank(i) < self.rank(j),
        decreases j,
    {
        if i < j {
            self.rank_is_monotonic(i, j - 1);
        } else if 0 < i {
            self.rank_is_monotonic(i - 1, i - 1);
        }
    }

    /// The first `i` rows give the same bars whether or not more rows follow.
    pub proof fn bars_upto_is_prefix(self, i: int, n: int)
        requires
            0 <= i <= n,
        ensures
            self.bars_upto(i) =~= self.bars_upto(n).take(self.rank(i)),
        decreases n,
    {
        self.rank_is_monotonic(i, n);
        if i < n {
            self.bars_upto_is_prefix(i, n - 1);
            self.rank_is_monotonic(i, n - 1);
        }
    }

    /// Each complete row has its bar among the bars, at the place of its rank.
    pub proof fn complete_row_has_its_bar(self, i: int)
        requires
            0 <= i < self.timestamps.len(),
            self.complete(i),
        ensures
            0 <= self.rank(i) < self.bars().len(),
            self.bars()[self.rank(i)] == self.bar(i),
    {
        let rows = self.timestamps.len() as int;
        self.rank_is_monotonic(i, rows);
        self.bars_upto_is_prefix(i + 1, rows);
        self.rank_is_monotonic(i + 1, rows);
        assert(self.bars_upto(i + 1)[self.rank(i)] == self.bar(i));
    }

    /// Each bar is the bar of a complete row, the one whose rank is the bar's
    /// place.
    pub proof fn bar_has_its_row(self, k: int, n: int) -> (i: int)
        requires
            0 <= k < self.bars_upto(n).len(),
        ensures
            0 <= i < n,
            self.complete(i),
            self.rank(i) == k,
            self.bars_upto(n)[k] == self.bar(i),
        decreases n,
    {
        if self.complete(n - 1) && k == self.rank(n - 1) {
            n - 1
        } else {
            self.bar_has_its_row(k, n - 1)
        }
    }

    /// The row that the bar at place `k` is made from.
    pub open spec fn source_row(self, k: int) -> int {
        choose|i: int|
            0 <= i < self.timestamps.len() && self.complete(i) && #[trigger] self.rank(i) == k
    }

    /// Of a record whose columns line up: there are at most as many bars as
    /// rows; each bar is made from a complete row and carries its time in
    /// milliseconds; later bars are made from later rows; and there is no bar
    /// at all exactly when every row lacks a price.
    pub proof fn bars_are_scaled_rows(self)
        requires
            self.aligned(),
            self.timestamps_fit(),
        ensures
            self.bars().len() <= self.timestamps.len(),
            forall|k: int|
                0 <= k < self.bars().len() ==> {
                    let i = #[trigger] self.source_row(k);
                    &&& 0 <= i < self.timestamps.len()
                    &&& self.complete(i)
                    &&& self.bars()[k] == self.bar(i)
                    &&& self.bars()[k].timestamp == self.timestamps[i] * 1000
                },
            forall|j: int, k: int|
                0 <= j < k < self.bars().len() ==> #[trigger] self.source_row(j)
                    < #[trigger] self.source_row(k),
            self.bars().len() == 0 <==> forall|i: int|
                0 <= i < self.timestamps.len() ==> !self.complete(i),
    {
        let rows = self.timestamps.len() as int;
        self.rank_is_monotonic(rows, rows);
        if self.bars().len() == 0 {
            assert forall|i: int| 0 <= i < self.timestamps.len() implies !self.complete(i) by {
                if self.complete(i) {
                    self.complete_row_has_its_bar(i);
                }
            }
        } else {
            let i = self.bar_has_its_row(0, rows);
        }
        assert forall|k: int| 0 <= k < self.bars().len() implies {
            let i = #[trigger] self.source_row(k);
            &&& 0 <= i < self.timestamps.len()
            &&& self.complete(i)
            &&& self.rank(i) == k
            &&& self.bars()[k] == self.bar(i)
            &&& self.bars()[k].timestamp == self.timestamps[i] * 1000
        } by {
            let w = self.bar_has_its_row(k, rows);
            assert(self.rank(w) == k);
            let i = self.source_row(k);
            self.complete_row_has_its_bar(i);
            assert(i64::MIN <= self.timestamps[i] * 1000 <= i64::MAX);
        }
        assert forall|j: int, k: int| 0 <= j < k < self.bars().len() implies #[trigger]
            self.source_row(j) < #[trigger] self.source_row(k) by {
            let a = self.source_row(j);
            let b = self.source_row(k);
            if b <= a {
                self.rank_is_monotonic(b, a);
            }
        }
    }

    /// A record whose columns do not all have the length of its timestamps is
    /// turned down, and the reason names the side that is absent or the first
    /// column that is out of step.
    pub proof fn misaligned_is_rejected(self)
        requires
            !self.aligned(),
        ensures
            self.rejection() is Some,
            self.timestamps.len() == 0 ==> self.rejection() == Some(
                "No timestamp for OHLCV data"@,
            ),
            self.timestamps.len() > 0 && self.no_columns() ==> self.rejection() == Some(
                "No OHLCV data"@,
            ),
            self.timestamps.len() > 0 && !self.no_columns() ==> self.rejection() == Some(
                if self.volumes.len() != self.timestamps.len() {
                    "Volume values do not line up with timestamps"@
                } else if self.opens.len() != self.timestamps.len() {
                    "Open values do not line up with timestamps"@
                } else if self.highs.len() != self.timestamps.len() {
                    "High values do not line up with the timestamps"@
                } else if self.lows.len() != self.timestamps.len() {
                    "Low values do not line up with timestamps"@
                } else {
                    "Close values do not line up with the timestamps"@
                },
            ),
    {
    }

    /// Where every row has its four prices, there is one bar for each row, in
    /// the order of the rows, and dividing its time by 1000 gives the row's
    /// timestamp back.
    pub proof fn full_rows_round_trip(self)
        requires
            self.aligned(),
            self.timestamps_fit(),
            forall|i: int| 0 <= i < self.timestamps.len() ==> self.complete(i),
        ensures
            self.rejection() is None,
            self.bars().len() == self.timestamps.len(),
            forall|i: int|
                0 <= i < self.timestamps.len() ==> #[trigger] self.bars()[i] == self.bar(i)
                    && self.bars()[i].timestamp / 1000 == self.timestamps[i],
    {
        let rows = self.timestamps.len() as int;
        self.all_complete_ranks(rows);
        assert forall|i: int| 0 <= i < self.timestamps.len() implies #[trigger] self.bars()[i]
            == self.bar(i) && self.bars()[i].timestamp / 1000 == self.timestamps[i] by {
            self.all_complete_ranks(i);
            self.complete_row_has_its_bar(i);
            assert(i64::MIN <= self.timestamps[i] * 1000 <= i64::MAX);
        }
    }

    proof fn all_complete_ranks(self, n: int)
        requires
            0 <= n <= self.timestamps.len(),
            forall|i: int| 0 <= i < self.timestamps.len() ==> self.complete(i),
        ensures
            self.rank(n) == n,
        decreases n,
    {
        if n > 0 {
            self.all_complete_ranks(n - 1);
        }
    }

    /// Aggregating a record has one outcome: two results of it hold the same
    /// bars, or fail for the same reason.
    pub proof fn aggregation_is_deterministic(
        self,
        first: Result<Vec<Bar<P>>, YahooError>,
        second: Result<Vec<Bar<P>>, YahooError>,
    )
        requires
            self.aggregated(first),
            self.aggregated(second),
        ensures
            match (first, second) {
                (Ok(a), Ok(b)) => a@ == b@,
                (Err(a), Err(b)) => exists|reason: Seq<char>|
                    a.is_missing_data(reason) && b.is_missing_data(reason),
                _ => false,
            },
    {
        if first is Err {
            let reason = self.rejection()->0;
            assert(first->Err_0.is_missing_data(reason) && second->Err_0.is_missing_data(reason));
        }
    }

    /// A record with no timestamps and nothing in its columns has no bars and
    /// is not turned down; one with no timestamps and something in a column is
    /// turned down for want of timestamps.
    pub proof fn no_timestamps(self)
        requires
            self.timestamps.len() == 0,
        ensures
            self.no_columns() ==> self.rejection() is None && self.bars() == Seq::<
                Bar<P>,
            >::empty(),
            !self.no_columns() ==> self.rejection() == Some("No timestamp for OHLCV data"@),
    {
    }
}

fn missing_data<T>(reason: &str) -> (r: Result<T, YahooError>)
    ensures
        r matches Err(e) && e.is_missing_data(reason@),
{
    Err(YahooError::MissingData { reason: reason.to_owned() })
}

/// Joins the columns of a record into bars, oldest first. A record whose
/// columns do not line up with its timestamps is turned down; a row that lacks
/// a price is left out.
pub fn aggregate_bars<P: Copy>(data: ChartRecord<P>) -> (r: Result<Vec<Bar<P>>, YahooError>)
    requires
        data@.timestamps_fit(),
    ensures
        data@.aggregated(r),
{
    let timestamps = &data.timestamps;
    let quotes = &data.indicators.quotes;
    let rows = timestamps.len();
    if quotes.len() == 0 {
        if rows == 0 {
            return Ok(Vec::new());
        }
        return missing_data("No OHLCV data");
    }
    let quote = &quotes[0];
    let no_columns = quote.opens.len() == 0 && quote.highs.len() == 0 && quote.lows.len() == 0
        && quote.closes.len() == 0 && quote.volumes.len() == 0;
    if rows == 0 && no_columns {
        return Ok(Vec::new());
    }
    if rows == 0 {
        return missing_data("No timestamp for OHLCV data");
    }
    if no_columns {
        return missing_data("No OHLCV data");
    }
    if rows != quote.volumes.len() {
        return missing_data("Volume values do not line up with timestamps");
    }
    if rows != quote.opens.len() {
        return missing_data("Open values do not line up with timestamps");
    }
    if rows != quote.highs.len() {
        return missing_data("High values do not line up with the timestamps");
    }
    if rows != quote.lows.len() {
        return missing_data("Low values do not line up with timestamps");
    }
    if rows != quote.closes.len() {
        return missing_data("Close values do not line up with the timestamps");
    }
    let mut bars: Vec<Bar<P>> = Vec::new();
    let mut i: usize = 0;
    while i < rows
        invariant
            i <= rows,
            rows == data@.timestamps.len(),
            data@.rejection() is None,
            data@.timestamps_fit(),
            timestamps@ == data@.timestamps,
            quote.opens@ == data@.opens,
            quote.highs@ == data@.highs,
            quote.lows@ == data@.lows,
            quote.closes@ == data@.closes,
            quote.volumes@ == data@.volumes,
            bars@ == data@.bars_upto(i as int),
        decreases rows - i,
    {
        let seconds = timestamps[i];
        assert(i64::MIN <= data@.timestamps[i as int] * 1000 <= i64::MAX);
        match (quote.opens[i], quote.highs[i], quote.lows[i], quote.closes[i]) {
            (Some(open), Some(high), Some(low), Some(close)) => {
                let volume = match quote.volumes[i] {
                    Some(v) => v,
                    None => 0,
                };
                bars.push(Bar { timestamp: seconds * 1000, open, high, low, close, volume });
            },
            _ => {},
        }
        i = i + 1;
    }
    Ok(bars)
}

impl<P> ChartRecord<P> {
    /// Whether every timestamp can be written in milliseconds, which
    /// `aggregate_bars` asks of a record.
    pub fn timestamps_fit(&self) -> (r: bool)
        ensures
            r == self@.timestamps_fit(),
    {
        let mut i: usize = 0;
        while i < self.timestamps.len()
            invariant
                i <= self.timestamps.len(),
                forall|k: int|
                    0 <= k < i ==> i64::MIN <= #[trigger] self.timestamps@[k] * 1000 <= i64::MAX,
            decreases self.timestamps.len() - i,
        {
            let seconds = self.timestamps[i];
            if seconds < -9223372036854775 || seconds > 9223372036854775 {
                assert(self@.timestamps[i as int] == seconds);
                return false;
            }
            i = i + 1;
        }
        true
    }
}

/// Bars laid out in columns, one entry of each column for each bar.
#[derive(Debug, Clone, PartialEq)]
pub struct Frame<P> {
    pub timestamp: Vec<i64>,
    pub open: Vec<P>,
    pub high: Vec<P>,
    pub low: Vec<P>,
    pub close: Vec<P>,
    pub volume: Vec<u64>,
}

impl<P> Frame<P> {
    /// The frame holds exactly the given bars, in their order.
    pub open spec fn holds(self, bars: Seq<Bar<P>>) -> bool {
        &&& self.timestamp@ == bars.map_values(|b: Bar<P>| b.timestamp)
        &&& self.open@ == bars.map_values(|b: Bar<P>| b.open)
        &&& self.high@ == bars.map_values(|b: Bar<P>| b.high)
        &&& self.low@ == bars.map_values(|b: Bar<P>| b.low)
        &&& self.close@ == bars.map_values(|b: Bar<P>| b.close)
        &&& self.volume@ == bars.map_values(|b: Bar<P>| b.volume)
    }

    /// The names of the columns, in their order.
    pub fn names() -> (r: [&'static str; 6])
        ensures
            r@ == seq!["timestamp", "open", "high", "low", "close", "volume"],
    {
        let r = ["timestamp", "open", "high", "low", "close", "volume"];
        assert(r@ =~= seq!["timestamp", "open", "high", "low", "close", "volume"]);
        r
    }
}

impl<P: Copy> Frame<P> {
    /// Lays bars out in columns.
    pub fn from_bars(bars: &Vec<Bar<P>>) -> (frame: Frame<P>)
        ensures
            frame.holds(bars@),
    {
        let mut frame = empty_ohlcv_dataframe();
        let mut i: usize = 0;
        assert(bars@.take(0) =~= Seq::empty());
        while i < bars.len()
            invariant
                i <= bars.len(),
                frame.holds(bars@.take(i as int)),
            decreases bars.len() - i,
        {
            let bar = &bars[i];
            frame.timestamp.push(bar.timestamp);
            frame.open.push(bar.open);
            frame.high.push(bar.high);
            frame.low.push(bar.low);
            frame.close.push(bar.close);
            frame.volume.push(bar.volume);
            proof {
                let before = bars@.take(i as int);
                let after = bars@.take(i + 1);
                assert(after =~= before.push(bars@[i as int]));
                assert(frame.timestamp@ =~= after.map_values(|b: Bar<P>| b.timestamp));
                assert(frame.open@ =~= after.map_values(|b: Bar<P>| b.open));
                assert(frame.high@ =~= after.map_values(|b: Bar<P>| b.high));
                assert(frame.low@ =~= after.map_values(|b: Bar<P>| b.low));
                assert(frame.close@ =~= after.map_values(|b: Bar<P>| b.close));
                assert(frame.volume@ =~= after.map_values(|b: Bar<P>| b.volume));
            }
            i = i + 1;
        }
        assert(bars@.take(i as int) =~= bars@);
        frame
    }
}

/// The frame of no bars: all six columns, and no row.
pub fn empty_ohlcv_dataframe<P>() -> (frame: Frame<P>)
    ensures
        frame.holds(Seq::empty()),
{
    let frame = Frame {
        timestamp: Vec::new(),
        open: Vec::new(),
        high: Vec::new(),
        low: Vec::new(),
        close: Vec::new(),
        volume: Vec::new(),
    };
    let ghost none = Seq::<Bar<P>>::empty();
    assert(frame.timestamp@ =~= none.map_values(|b: Bar<P>| b.timestamp));
    assert(frame.open@ =~= none.map_values(|b: Bar<P>| b.open));
    assert(frame.high@ =~= none.map_values(|b: Bar<P>| b.high));
    assert(frame.low@ =~= none.map_values(|b: Bar<P>| b.low));
    assert(frame.close@ =~= none.map_values(|b: Bar<P>| b.close));
    assert(frame.volume@ =~= none.map_values(|b: Bar<P>| b.volume));
    frame
}

/// The address to fetch for the daily bars of the last six months.
pub fn retrieve(base: &str, symbol: &str) -> (r: Result<String, YahooError>)
    ensures
        is_built(r, daily_query(base@, symbol@, Interval::_6mo)),
{
    load_daily(base, symbol, Interval::_6mo)
}

/// What asking for the daily bars of a window gives: nothing to fetch for
/// a window shorter than a day, else the address to fetch.
pub open spec fn interval_request(
    base: Seq<char>,
    symbol: Seq<char>,
    interval: Interval,
    r: Result<String, YahooError>,
) -> bool {
    if interval.intraday() {
        r matches Err(YahooError::NoIntraday { interval: i }) && i == interval
    } else {
        is_built(r, daily_query(base, symbol, interval))
    }
}

/// The address to fetch for the daily bars of a window that ends at the
/// last close. A window shorter than a day has no daily bars.
pub fn retrieve_interval(base: &str, symbol: &str, interval: Interval) -> (r: Result<
    String,
    YahooError,
>)
    ensures
        interval_request(base@, symbol@, interval, r),
{
    if interval.is_intraday() {
        return Err(YahooError::NoIntraday { interval });
    }
    load_daily(base, symbol, interval)
}

/// What asking for the daily bars between two times gives: nothing to
/// fetch unless the start is before the end, else the address to fetch.
pub open spec fn range_request(
    base: Seq<char>,
    symbol: Seq<char>,
    start: i64,
    end: i64,
    r: Result<String, YahooError>,
) -> bool {
    if end <= start {
        r matches Err(YahooError::InvalidStartDate)
    } else {
        is_built(r, daily_range_query(base, symbol, start as int, end as int))
    }
}

/// The address to fetch for the daily bars from `start` to `end`, both in
/// seconds since the epoch.
pub fn retrieve_between(base: &str, symbol: &str, start: i64, end: i64) -> (r: Result<
    String,
    YahooError,
>)
    ensures
        range_request(base@, symbol@, start, end, r),
{
    if end <= start {
        return Err(YahooError::InvalidStartDate);
    }
    load_daily_range(base, symbol, start, end)
}

/// The time of `std::time::SystemTime::now`, made a `chrono::DateTime<Utc>`
/// by chrono's `From<SystemTime>` and counted in seconds since the epoch by
/// `chrono::DateTime::timestamp`; a clock that stands before 1970 gives a
/// negative count. Nothing is claimed of it.
#[verifier::external_body]
fn now() -> i64 {
    chrono::DateTime::<chrono::Utc>::from(std::time::SystemTime::now()).timestamp()
}

/// The address to fetch for the daily bars from `start` to `end`, both in
/// seconds since the epoch, or from `start` to now where no end is given.
pub fn retrieve_range(base: &str, symbol: &str, start: i64, end: Option<i64>) -> (r: Result<
    String,
    YahooError,
>)
    ensures
        match end {
            Some(end) => range_request(base@, symbol@, start, end, r),
            None => exists|now: i64| range_request(base@, symbol@, start, now, r),
        },
{
    let end = match end {
        Some(end) => end,
        None => now(),
    };
    retrieve_between(base, symbol, start, end)
}

} // verus!
