//! Requests for historical data, with the limits that the server sets on
//! their time windows. Timestamps are Unix time in milliseconds.

use crate::client::Session;
use crate::error::{Error, ErrorView};
use vstd::prelude::*;

verus! {

/// A window must end before this time (19th Jan 2038).
pub const MAX_TIMESTAMP: i64 = 2_147_483_646_000;

/// One week.
pub const WEEK_MS: i64 = 604_800_000;

/// Longest window for bars of up to five minutes: five weeks.
pub const MINUTE_BARS_WINDOW_MS: i64 = 302_400_000;

/// Longest window for bars of ten minutes to one hour: 35 weeks.
pub const HOUR_BARS_WINDOW_MS: i64 = 21_168_000_000;

/// Longest window for bars of four hours to one day: one year.
pub const DAY_BARS_WINDOW_MS: i64 = 31_622_400_000;

/// Longest window for bars of one week or one month: five years.
pub const WEEK_BARS_WINDOW_MS: i64 = 158_112_000_000;

/// A window that the server accepts for lists: it starts at or after the
/// epoch, ends before [`MAX_TIMESTAMP`] and is at most one week long.
pub open spec fn week_window(from_timestamp: i64, to_timestamp: i64) -> bool {
    &&& from_timestamp >= 0
    &&& to_timestamp < MAX_TIMESTAMP
    &&& to_timestamp - from_timestamp <= WEEK_MS
}

/// A window that the server accepts for trend bars of a period: its
/// longest length depends on the period.
pub open spec fn bars_window(period: i32, from_timestamp: i64, to_timestamp: i64) -> bool {
    let length = to_timestamp - from_timestamp;
    &&& from_timestamp >= 0
    &&& to_timestamp < MAX_TIMESTAMP
    &&& {
        ||| period <= 5 && length <= MINUTE_BARS_WINDOW_MS
        ||| 6 <= period <= 9 && length <= HOUR_BARS_WINDOW_MS
        ||| 10 <= period <= 12 && length <= DAY_BARS_WINDOW_MS
        ||| 13 <= period <= 14 && length <= WEEK_BARS_WINDOW_MS
    }
}

/// Whether a window is accepted for lists: see [`week_window`].
pub fn is_week_window(from_timestamp: i64, to_timestamp: i64) -> (r: bool)
    ensures
        r == week_window(from_timestamp, to_timestamp),
{
    from_timestamp >= 0 && to_timestamp < MAX_TIMESTAMP && (to_timestamp < from_timestamp
        || to_timestamp - from_timestamp <= WEEK_MS)
}

/// Whether a window is accepted for trend bars: see [`bars_window`].
pub fn is_bars_window(period: i32, from_timestamp: i64, to_timestamp: i64) -> (r: bool)
    ensures
        r == bars_window(period, from_timestamp, to_timestamp),
{
    if from_timestamp < 0 || to_timestamp >= MAX_TIMESTAMP {
        return false;
    }
    let limit: i64 = if period <= 5 {
        MINUTE_BARS_WINDOW_MS
    } else if period <= 9 {
        HOUR_BARS_WINDOW_MS
    } else if period <= 12 {
        DAY_BARS_WINDOW_MS
    } else if period <= 14 {
        WEEK_BARS_WINDOW_MS
    } else {
        return false;
    };
    to_timestamp < from_timestamp || to_timestamp - from_timestamp <= limit
}

/// Request for the closed orders of a window.
#[derive(Debug, Clone, Copy, PartialEq, Eq, Structural)]
pub struct OrderListReq {
    pub account_id: i64,
    pub from_timestamp: i64,
    pub to_timestamp: i64,
}

/// Request for the deals of a window.
#[derive(Debug, Clone, Copy, PartialEq, Eq, Structural)]
pub struct DealListReq {
    pub account_id: i64,
    pub from_timestamp: i64,
    pub to_timestamp: i64,
    pub max_rows: Option<i32>,
}

/// Request for the deposits and withdrawals of a window.
#[derive(Debug, Clone, Copy, PartialEq, Eq, Structural)]
pub struct CashFlowHistoryListReq {
    pub account_id: i64,
    pub from_timestamp: i64,
    pub to_timestamp: i64,
}

/// Request for the trend bars of a symbol in a window.
#[derive(Debug, Clone, Copy, PartialEq, Eq, Structural)]
pub struct TrendBarsReq {
    pub account_id: i64,
    pub from_timestamp: i64,
    pub to_timestamp: i64,
    pub period: i32,
    pub symbol_id: i64,
    pub count: Option<u32>,
}

/// Request for the ticks of a symbol in a window.
#[derive(Debug, Clone, Copy, PartialEq, Eq, Structural)]
pub struct TickDataReq {
    pub account_id: i64,
    pub symbol_id: i64,
    pub quote_type: i32,
    pub from_timestamp: i64,
    pub to_timestamp: i64,
}

/// Request for the deals of a position in a window.
#[derive(Debug, Clone, Copy, PartialEq, Eq, Structural)]
pub struct DealListByPositionIdReq {
    pub account_id: i64,
    pub position_id: i64,
    pub from_timestamp: i64,
    pub to_timestamp: i64,
}

/// The longest window of one download request for bars of a period, or
/// `None` for a period that is none of the fourteen.
pub open spec fn download_increment(period: i32) -> Option<i64> {
    if 1 <= period <= 5 {
        Some(MINUTE_BARS_WINDOW_MS)
    } else if 6 <= period <= 9 {
        Some(HOUR_BARS_WINDOW_MS)
    } else if 10 <= period <= 12 {
        Some(DAY_BARS_WINDOW_MS)
    } else if 13 <= period <= 14 {
        Some(WEEK_BARS_WINDOW_MS)
    } else {
        None
    }
}

/// The longest window of one download request for bars of `period`; a
/// period that is none of the fourteen is refused with `PeriodParamError`.
pub fn increment_of(period: i32) -> (r: Result<i64, Error>)
    ensures
        match download_increment(period) {
            Some(inc) => r == Ok::<i64, Error>(inc),
            None => r.is_err() && r.unwrap_err()@ == ErrorView::PeriodParamError(period),
        },
{
    if period < 1 {
        Err(Error::PeriodParamError(period))
    } else if period <= 5 {
        Ok(MINUTE_BARS_WINDOW_MS)
    } else if period <= 9 {
        Ok(HOUR_BARS_WINDOW_MS)
    } else if period <= 12 {
        Ok(DAY_BARS_WINDOW_MS)
    } else if period <= 14 {
        Ok(WEEK_BARS_WINDOW_MS)
    } else {
        Err(Error::PeriodParamError(period))
    }
}

impl Session {
    /// The request for the closed orders of a window.
    pub fn make_order_list_req(&self, from_timestamp: i64, to_timestamp: i64) -> (r: OrderListReq)
        requires
            week_window(from_timestamp, to_timestamp),
        ensures
            r == (OrderListReq {
                account_id: self@.account.account_id,
                from_timestamp,
                to_timestamp,
            }),
    {
        OrderListReq { account_id: self.account.account_id, from_timestamp, to_timestamp }
    }

    /// The request for the deals of a window.
    pub fn make_deal_list_req(
        &self,
        from_timestamp: i64,
        to_timestamp: i64,
        max_rows: Option<i32>,
    ) -> (r: DealListReq)
        requires
            week_window(from_timestamp, to_timestamp),
        ensures
            r == (DealListReq {
                account_id: self@.account.account_id,
                from_timestamp,
                to_timestamp,
                max_rows,
            }),
    {
        DealListReq { account_id: self.account.account_id, from_timestamp, to_timestamp, max_rows }
    }

    /// The request for the deposits and withdrawals of a window.
    pub fn make_cash_flow_history_list_req(&self, from_timestamp: i64, to_timestamp: i64) -> (r:
        CashFlowHistoryListReq)
        requires
            week_window(from_timestamp, to_timestamp),
        ensures
            r == (CashFlowHistoryListReq {
                account_id: self@.account.account_id,
                from_timestamp,
                to_timestamp,
            }),
    {
        CashFlowHistoryListReq { account_id: self.account.account_id, from_timestamp, to_timestamp }
    }

    /// The request for the trend bars of a symbol in a window.
    pub fn make_trend_bars_req(
        &self,
        from_timestamp: i64,
        to_timestamp: i64,
        period: i32,
        symbol_id: i64,
        count: Option<u32>,
    ) -> (r: TrendBarsReq)
        requires
            bars_window(period, from_timestamp, to_timestamp),
        ensures
            r == (TrendBarsReq {
                account_id: self@.account.account_id,
                from_timestamp,
                to_timestamp,
                period,
                symbol_id,
                count,
            }),
    {
        TrendBarsReq {
            account_id: self.account.account_id,
            from_timestamp,
            to_timestamp,
            period,
            symbol_id,
            count,
        }
    }

    /// The request for the ticks of a symbol in a window.
    pub fn make_tick_data_req(
        &self,
        symbol_id: i64,
        quote_type: i32,
        from_timestamp: i64,
        to_timestamp: i64,
    ) -> (r: TickDataReq)
        requires
            week_window(from_timestamp, to_timestamp),
        ensures
            r == (TickDataReq {
                account_id: self@.account.account_id,
                symbol_id,
                quote_type,
                from_timestamp,
                to_timestamp,
            }),
    {
        TickDataReq {
            account_id: self.account.account_id,
            symbol_id,
            quote_type,
            from_timestamp,
            to_timestamp,
        }
    }

    /// The request for the deals of a position in a window.
    pub fn deal_list_position_id(&self, position_id: i64, from_timestamp: i64, to_timestamp: i64) -> (r:
        DealListByPositionIdReq)
        requires
            week_window(from_timestamp, to_timestamp),
        ensures
            r == (DealListByPositionIdReq {
                account_id: self@.account.account_id,
                position_id,
                from_timestamp,
                to_timestamp,
            }),
    {
        DealListByPositionIdReq {
            account_id: self.account.account_id,
            position_id,
            from_timestamp,
            to_timestamp,
        }
    }
}

} // verus!
