//! Trend bars as the server sends them, and as prices.
//!
//! Prices are integers in units of 1/100000 of the quote currency. A trend
//! bar carries its low and the distances of open, high and close from it.

use vstd::prelude::*;

verus! {

/// A trend bar as the server sends it.
#[derive(Debug, Clone, Copy, PartialEq, Eq, Structural)]
pub struct RawTrendbar {
    pub volume: i64,
    pub period: Option<i32>,
    pub low: Option<i64>,
    pub delta_open: Option<u64>,
    pub delta_close: Option<u64>,
    pub delta_high: Option<u64>,
    pub utc_timestamp_in_minutes: Option<u32>,
}

/// A trend bar with its four prices.
#[derive(Debug, Clone, Copy, PartialEq, Eq, Structural)]
pub struct TrendBar {
    pub period: i32,
    /// Start of the bar, in seconds since the epoch.
    pub time: i64,
    pub open: i64,
    pub high: i64,
    pub low: i64,
    pub close: i64,
    pub vol: u64,
}

/// The price at a distance above the low; a missing distance is zero. The
/// sum wraps at 64 bits.
pub open spec fn price_above(low: i64, delta: Option<u64>) -> i64 {
    match delta {
        Some(d) => (low + d) as i64,
        None => low,
    }
}

/// The price at a distance above the low: see [`price_above`].
pub fn price_at(low: i64, delta: Option<u64>) -> (p: i64)
    ensures
        p == price_above(low, delta),
{
    match delta {
        Some(d) => {
            let sum: i128 = low as i128 + d as i128;
            #[verifier::truncate]
            (sum as i64)
        },
        None => low,
    }
}

/// The bar with its four prices; `None` where the bar lacks its period,
/// its low or its time.
pub open spec fn converted_bar(bar: RawTrendbar) -> Option<TrendBar> {
    if bar.period.is_some() && bar.low.is_some() && bar.utc_timestamp_in_minutes.is_some() {
        Some(
            TrendBar {
                period: bar.period.unwrap(),
                time: (bar.utc_timestamp_in_minutes.unwrap() * 60) as i64,
                open: price_above(bar.low.unwrap(), bar.delta_open),
                high: price_above(bar.low.unwrap(), bar.delta_high),
                low: bar.low.unwrap(),
                close: price_above(bar.low.unwrap(), bar.delta_close),
                vol: bar.volume as u64,
            },
        )
    } else {
        None
    }
}

/// The bar with its four prices: see [`converted_bar`].
pub fn convert_trendbar(bar: RawTrendbar) -> (r: Option<TrendBar>)
    ensures
        r == converted_bar(bar),
{
    match (bar.period, bar.low, bar.utc_timestamp_in_minutes) {
        (Some(period), Some(low), Some(minutes)) => Some(
            TrendBar {
                period,
                time: minutes as i64 * 60,
                open: price_at(low, bar.delta_open),
                high: price_at(low, bar.delta_high),
                low,
                close: price_at(low, bar.delta_close),
                vol: #[verifier::truncate]
                (bar.volume as u64),
            },
        ),
        _ => None,
    }
}

} // verus!
