use vstd::prelude::*;

verus! {

/// One OHLCV observation at a point in time.
///
/// Prices are carried as unsigned integers in a fixed sub-unit scale chosen
/// by the caller (for example ten-thousandths of the quote currency), so
/// that aggregation over them is exact. `timestamp` is seconds since the
/// Unix epoch (UTC). `volume` is a non-negative count of traded units.
#[derive(Clone, Copy, Debug, PartialEq, Eq, Structural)]
pub struct OhlcData {
    pub timestamp: i64,
    pub open: u64,
    pub high: u64,
    pub low: u64,
    pub close: u64,
    pub volume: u64,
}

/// The `YYYY-MM-DD` rendering (UTC) of a Unix timestamp. The calendar
/// arithmetic behind it is a fixed function of the timestamp alone; it is
/// left to the date library and named here rather than restated.
pub uninterp spec fn ymd_of(ts: int) -> Seq<char>;

/// Relies on chrono's `DateTime::<Utc>::from_timestamp` and its `%Y-%m-%d`
/// formatter: the rendered calendar date is a function of the timestamp
/// alone, and `from_timestamp` returns `Some` for every second count whose
/// day fits the library's calendar, which covers at least the years 1970
/// through 9999.
#[verifier::external_body]
fn render_ymd(ts: i64) -> (r: Option<String>)
    ensures
        r matches Some(d) ==> d@ == ymd_of(ts as int),
        0 <= ts <= 253402300799 ==> r is Some,
{
    match chrono::DateTime::<chrono::Utc>::from_timestamp(ts, 0) {
        Some(dt) => Some(dt.format("%Y-%m-%d").to_string()),
        None => None,
    }
}

impl OhlcData {
    /// Renders the bar's timestamp as a `YYYY-MM-DD` calendar date (UTC),
    /// for display. `None` only when the timestamp lies outside the
    /// representable calendar; every timestamp from 1970 through the year
    /// 9999 renders.
    pub fn formatted_date(&self) -> (r: Option<String>)
        ensures
            r matches Some(d) ==> d@ == ymd_of(self.timestamp as int),
            0 <= self.timestamp <= 253402300799 ==> r is Some,
    {
        render_ymd(self.timestamp)
    }
}

} // verus!
