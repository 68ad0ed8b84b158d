//! Download of historical bars in windows.
//!
//! The server limits the window of one request, so a download walks from
//! the start to the end in windows of the longest length that the period
//! allows. From each answer the bars before the end of its window are
//! kept, and a bar is not kept twice.

use crate::util::conv::{price_above, price_at, RawTrendbar};
use vstd::prelude::*;

verus! {

/// One bar of a download. Prices are integers in units of 1/100000.
#[derive(Debug, Clone, Copy, PartialEq, Eq, Structural)]
pub struct Kline {
    /// Start of the bar, in seconds since the epoch.
    pub timestamp: i64,
    pub open: i64,
    pub high: i64,
    pub low: i64,
    pub close: i64,
    pub vol: u64,
}

/// One request of a download: the window to ask for, and where the next
/// window starts.
#[derive(Debug, Clone, Copy, PartialEq, Eq, Structural)]
pub struct DownloadWindow {
    pub from_timestamp: i64,
    pub to_timestamp: i64,
    pub next_from: Option<i64>,
}

/// The window that starts at `from`: it is `increment` long, or ends with
/// the download. There is none once `from` has reached the end.
pub open spec fn window_at(from: i64, end: i64, increment: i64) -> Option<DownloadWindow> {
    if from < end {
        Some(
            DownloadWindow {
                from_timestamp: from,
                to_timestamp: if from + increment > end {
                    end
                } else {
                    (from + increment) as i64
                },
                next_from: if from + increment < end {
                    Some((from + increment) as i64)
                } else {
                    None
                },
            },
        )
    } else {
        None
    }
}

/// The window that starts at `from`: see [`window_at`].
pub fn next_window(from: i64, end: i64, increment: i64) -> (r: Option<DownloadWindow>)
    requires
        increment > 0,
    ensures
        r == window_at(from, end, increment),
{
    if from < end {
        let room: i128 = end as i128 - from as i128;
        if (increment as i128) < room {
            Some(
                DownloadWindow {
                    from_timestamp: from,
                    to_timestamp: from + increment,
                    next_from: Some(from + increment),
                },
            )
        } else {
            Some(DownloadWindow { from_timestamp: from, to_timestamp: end, next_from: None })
        }
    } else {
        None
    }
}

/// The bar of a download that a trend bar with low and time is.
pub open spec fn kline_of(bar: RawTrendbar) -> Kline {
    Kline {
        timestamp: (bar.utc_timestamp_in_minutes.unwrap() * 60) as i64,
        open: price_above(bar.low.unwrap(), bar.delta_open),
        high: price_above(bar.low.unwrap(), bar.delta_high),
        low: bar.low.unwrap(),
        close: price_above(bar.low.unwrap(), bar.delta_close),
        vol: bar.volume as u64,
    }
}

/// Whether a bar starts before the end of its window, given in milliseconds.
pub open spec fn before_end(bar: RawTrendbar, last_to_timestamp: i64) -> bool {
    bar.utc_timestamp_in_minutes.unwrap() * 60 * 1000 < last_to_timestamp
}

/// Whether an answer can be read: every bar up to the first that does not
/// start before the end of the window has its time, and every bar before
/// that one has its low.
pub open spec fn readable(bars: Seq<RawTrendbar>, last_to_timestamp: i64) -> bool
    decreases bars.len(),
{
    bars.len() == 0 || (bars[0].utc_timestamp_in_minutes.is_some() && (!before_end(
        bars[0],
        last_to_timestamp,
    ) || (bars[0].low.is_some() && readable(bars.drop_first(), last_to_timestamp))))
}

/// Whether an answer can be given to [`save_bar`]: see [`readable`].
pub fn can_save(bars: &Vec<RawTrendbar>, last_to_timestamp: i64) -> (r: bool)
    ensures
        r == readable(bars@, last_to_timestamp),
{
    let mut i: usize = 0;
    assert(bars@.skip(0) =~= bars@);
    while i < bars.len()
        invariant
            i <= bars@.len(),
            readable(bars@, last_to_timestamp) == readable(bars@.skip(i as int), last_to_timestamp),
        decreases bars@.len() - i,
    {
        let bar = bars[i];
        assert(bars@.skip(i as int)[0] == bar);
        assert(bars@.skip(i as int).drop_first() =~= bars@.skip(i + 1));
        match bar.utc_timestamp_in_minutes {
            None => { return false; },
            Some(minutes) => {
                if minutes as i64 * 60 * 1000 >= last_to_timestamp {
                    return true;
                }
                if bar.low.is_none() {
                    return false;
                }
            },
        }
        i += 1;
    }
    true
}

/// The bars kept so far with those of one answer: the answer is read up
/// to its first bar that does not start before the end of the window, and
/// a bar that starts when the last kept bar starts is left out.
pub open spec fn saved(candles: Seq<Kline>, bars: Seq<RawTrendbar>, last_to_timestamp: i64) -> Seq<
    Kline,
>
    decreases bars.len(),
{
    if bars.len() == 0 || !before_end(bars[0], last_to_timestamp) {
        candles
    } else {
        let kline = kline_of(bars[0]);
        let kept = if candles.len() == 0 || kline.timestamp != candles.last().timestamp {
            candles.push(kline)
        } else {
            candles
        };
        saved(kept, bars.drop_first(), last_to_timestamp)
    }
}

/// Adds the bars of one answer to `candles`: see [`saved`].
pub fn save_bar(bars: &Vec<RawTrendbar>, candles: &mut Vec<Kline>, last_to_timestamp: i64)
    requires
        readable(bars@, last_to_timestamp),
    ensures
        final(candles)@ == saved(old(candles)@, bars@, last_to_timestamp),
{
    let mut i: usize = 0;
    assert(bars@.skip(0) =~= bars@);
    while i < bars.len()
        invariant
            i <= bars@.len(),
            readable(bars@.skip(i as int), last_to_timestamp),
            saved(old(candles)@, bars@, last_to_timestamp) == saved(
                candles@,
                bars@.skip(i as int),
                last_to_timestamp,
            ),
        decreases bars@.len() - i,
    {
        let bar = bars[i];
        assert(bars@.skip(i as int)[0] == bar);
        let minutes = match bar.utc_timestamp_in_minutes {
            Some(minutes) => minutes,
            None => { return ; },
        };
        let timestamp_as_sec: i64 = minutes as i64 * 60;
        if timestamp_as_sec * 1000 >= last_to_timestamp {
            return ;
        }
        let low = match bar.low {
            Some(low) => low,
            None => { return ; },
        };
        let kline = Kline {
            timestamp: timestamp_as_sec,
            open: price_at(low, bar.delta_open),
            high: price_at(low, bar.delta_high),
            low,
            close: price_at(low, bar.delta_close),
            vol: #[verifier::truncate]
            (bar.volume as u64),
        };
        if candles.len() == 0 || kline.timestamp != candles[candles.len() - 1].timestamp {
            candles.push(kline);
        }
        assert(bars@.skip(i as int).drop_first() =~= bars@.skip(i + 1));
        i += 1;
    }
}

} // verus!
