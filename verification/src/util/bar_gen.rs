//! Aggregation of spot events into candles, online.
//!
//! Prices are integers in units of 1/100000 of the quote currency.

use crate::util::conv::{price_above, price_at, RawTrendbar};
use vstd::prelude::*;

verus! {

/// A finished candle.
#[derive(Debug, Clone, Copy, PartialEq, Eq, Structural)]
pub struct Candle {
    /// Start of the candle, in milliseconds since the epoch.
    pub timestamp: i64,
    pub open: i64,
    pub high: i64,
    pub low: i64,
    /// The last bid.
    pub close: u64,
    pub vol: u64,
    /// Number of events with an ask in the candle.
    pub num_asks: i32,
    /// Number of events with a bid in the candle.
    pub num_bids: i32,
}

/// The quote after an event.
#[derive(Debug, Clone, Copy, PartialEq, Eq, Structural)]
pub struct Quote {
    /// Time of the event, in milliseconds since the epoch.
    pub timestamp: i64,
    pub ask: u64,
    pub bid: u64,
}

/// What a spot event says of one symbol.
#[derive(Debug, Clone, PartialEq, Eq)]
pub struct SpotEvent {
    pub bid: Option<u64>,
    pub ask: Option<u64>,
    pub trendbar: Vec<RawTrendbar>,
    pub timestamp: Option<i64>,
}

/// State of a [`BarGenerator`].
pub struct BarState {
    /// Length of a candle in minutes.
    pub period: u32,
    /// Start of the open candle in minutes, in units of the period where
    /// it was taken from an event's time; zero before the first event.
    pub timestamp: u32,
    pub open: i64,
    pub high: i64,
    pub low: i64,
    pub vol: u64,
    pub num_bids: i32,
    pub num_asks: i32,
    pub last_ask: u64,
    pub last_bid: u64,
}

/// The minutes of a bar period of the API, or zero for a period that is
/// none of the thirteen.
pub open spec fn period_minutes(api_period: u32) -> u32 {
    if 1 <= api_period <= 5 {
        api_period
    } else if api_period == 6 {
        10
    } else if api_period == 7 {
        15
    } else if api_period == 8 {
        30
    } else if api_period == 9 {
        60
    } else if api_period == 10 {
        240
    } else if api_period == 11 {
        720
    } else if api_period == 12 {
        1440
    } else if api_period == 13 {
        10080
    } else {
        0
    }
}

/// Quotient of `a` by a positive `b`, rounded towards zero.
pub open spec fn div_towards_zero(a: int, b: int) -> int {
    if a >= 0 {
        a / b
    } else {
        -((-a) / b)
    }
}

fn divide(a: i64, b: i64) -> (r: i64)
    requires
        b > 0,
    ensures
        r == div_towards_zero(a as int, b as int),
{
    if a >= 0 {
        a / b
    } else {
        let m: i64 = -(a + 1);
        let q: i64 = m / b;
        let carry: i64 = if m % b == b - 1 {
            1
        } else {
            0
        };
        assert((-a) / (b as int) == q + carry) by (nonlinear_arith)
            requires
                m == -(a + 1),
                m >= 0,
                b > 0,
                q == (m as int) / (b as int),
                carry == (if (m as int) % (b as int) == b - 1 {
                    1int
                } else {
                    0int
                }),
        ;
        assert(q <= m) by (nonlinear_arith)
            requires
                m >= 0,
                b > 0,
                q == (m as int) / (b as int),
        ;
        (-q) - carry
    }
}

/// A counter plus one, wrapping at 32 bits.
pub open spec fn bumped(n: i32) -> i32 {
    if n == i32::MAX {
        i32::MIN
    } else {
        (n + 1) as i32
    }
}

/// A volume plus another, wrapping at 64 bits.
pub open spec fn volume_sum(a: u64, b: u64) -> u64 {
    if a + b > u64::MAX {
        (a + b - u64::MAX - 1) as u64
    } else {
        (a + b) as u64
    }
}

/// What an event needs for [`BarGenerator::update`]: its time; with a
/// trend bar, the time and the low of the first one; without, a period
/// other than zero.
pub open spec fn event_usable(period: u32, event: SpotEvent) -> bool {
    &&& event.timestamp.is_some()
    &&& if event.trendbar@.len() > 0 {
        event.trendbar@[0].utc_timestamp_in_minutes.is_some() && event.trendbar@[0].low.is_some()
    } else {
        period > 0
    }
}

/// The start of the candle that an event falls into: the time of its
/// first trend bar in minutes or, without one, its own time in units of
/// the period.
pub open spec fn event_time(period: u32, event: SpotEvent) -> u32 {
    if event.trendbar@.len() > 0 {
        event.trendbar@[0].utc_timestamp_in_minutes.unwrap()
    } else {
        div_towards_zero(
            div_towards_zero(div_towards_zero(event.timestamp.unwrap() as int, 1000), 60),
            period as int,
        ) as u32
    }
}

/// The state once ask, bid and their counters are taken from an event.
pub open spec fn quoted(s: BarState, event: SpotEvent) -> BarState {
    BarState {
        last_ask: match event.ask {
            Some(a) => a,
            None => s.last_ask,
        },
        last_bid: match event.bid {
            Some(b) => b,
            None => s.last_bid,
        },
        num_asks: if event.ask.is_some() {
            bumped(s.num_asks)
        } else {
            s.num_asks
        },
        num_bids: if event.bid.is_some() {
            bumped(s.num_bids)
        } else {
            s.num_bids
        },
        ..s
    }
}

/// The candle that is open in a state, unless none was begun.
pub open spec fn open_candle(s: BarState) -> Option<Candle> {
    if s.timestamp == 0 {
        None
    } else {
        Some(
            Candle {
                timestamp: (s.timestamp * 60 * 1000) as i64,
                open: s.open,
                high: s.high,
                low: s.low,
                close: s.last_bid,
                vol: s.vol,
                num_asks: s.num_asks,
                num_bids: s.num_bids,
            },
        )
    }
}

/// The state and the outcome of one event. Ask and bid are taken over; an
/// event of another candle than the open one closes that candle and puts
/// counters and volume back to zero; a trend bar sets open, high and low
/// and adds its volume.
pub open spec fn updated(s: BarState, event: SpotEvent) -> (BarState, Quote, Option<Candle>) {
    let q = quoted(s, event);
    let time = event_time(s.period, event);
    let turned = time != s.timestamp;
    let frozen = if turned {
        BarState { num_bids: 0, num_asks: 0, vol: 0, ..q }
    } else {
        q
    };
    let timed = BarState { timestamp: time, ..frozen };
    let next = if event.trendbar@.len() > 0 {
        let bar = event.trendbar@[0];
        BarState {
            open: price_above(bar.low.unwrap(), bar.delta_open),
            high: price_above(bar.low.unwrap(), bar.delta_high),
            low: bar.low.unwrap(),
            vol: volume_sum(timed.vol, bar.volume as u64),
            ..timed
        }
    } else {
        timed
    };
    (
        next,
        Quote { timestamp: event.timestamp.unwrap(), ask: next.last_ask, bid: next.last_bid },
        if turned {
            open_candle(q)
        } else {
            None
        },
    )
}

/// Aggregates the spot events of one symbol into candles of one period.
#[derive(Debug, Clone)]
pub struct BarGenerator {
    period: u32,
    timestamp: u32,
    open: i64,
    high: i64,
    low: i64,
    vol: u64,
    num_bids: i32,
    num_asks: i32,
    last_ask: u64,
    last_bid: u64,
}

impl View for BarGenerator {
    type V = BarState;

    closed spec fn view(&self) -> BarState {
        BarState {
            period: self.period,
            timestamp: self.timestamp,
            open: self.open,
            high: self.high,
            low: self.low,
            vol: self.vol,
            num_bids: self.num_bids,
            num_asks: self.num_asks,
            last_ask: self.last_ask,
            last_bid: self.last_bid,
        }
    }
}

fn bump(n: i32) -> (r: i32)
    ensures
        r == bumped(n),
{
    if n == i32::MAX {
        i32::MIN
    } else {
        n + 1
    }
}

fn add_volume(a: u64, b: u64) -> (r: u64)
    ensures
        r == volume_sum(a, b),
{
    if a > u64::MAX - b {
        a - (u64::MAX - b) - 1
    } else {
        a + b
    }
}

impl BarGenerator {
    /// A generator for candles of `period` minutes, before its first event.
    pub fn new(period: u32) -> (g: Self)
        ensures
            g@ == (BarState {
                period,
                timestamp: 0,
                open: 0,
                high: 0,
                low: 0,
                vol: 0,
                num_bids: 0,
                num_asks: 0,
                last_ask: 0,
                last_bid: 0,
            }),
    {
        Self {
            period,
            timestamp: 0,
            open: 0,
            high: 0,
            low: 0,
            vol: 0,
            num_asks: 0,
            num_bids: 0,
            last_ask: 0,
            last_bid: 0,
        }
    }

    /// The length of a candle in minutes.
    pub fn period(&self) -> (p: u32)
        ensures
            p == self@.period,
    {
        self.period
    }

    fn frozen_candle(&mut self) -> (candle: Option<Candle>)
        ensures
            candle == open_candle(old(self)@),
            final(self)@ == (BarState { num_bids: 0, num_asks: 0, vol: 0, ..old(self)@ }),
    {
        let candle = if self.timestamp == 0 {
            None
        } else {
            Some(
                Candle {
                    timestamp: (self.timestamp as i64) * 60 * 1000,
                    open: self.open,
                    high: self.high,
                    low: self.low,
                    close: self.last_bid,
                    vol: self.vol,
                    num_asks: self.num_asks,
                    num_bids: self.num_bids,
                },
            )
        };
        self.num_bids = 0;
        self.num_asks = 0;
        self.vol = 0;
        candle
    }

    /// The minutes of a bar period of the API: see [`period_minutes`].
    pub fn map_api_period_to_minutes(api_period: u32) -> (m: u32)
        ensures
            m == period_minutes(api_period),
    {
        match api_period {
            1..=5 => api_period,
            6 => 10,
            7 => 15,
            8 => 30,
            9 => 60,
            10 => 4 * 60,
            11 => 12 * 60,
            12 => 24 * 60,
            13 => 7 * 24 * 60,
            _ => 0,
        }
    }

    /// Whether an event can be given to [`BarGenerator::update`].
    pub fn accepts(&self, event: &SpotEvent) -> (r: bool)
        ensures
            r == event_usable(self@.period, *event),
    {
        if event.timestamp.is_none() {
            return false;
        }
        if event.trendbar.len() > 0 {
            event.trendbar[0].utc_timestamp_in_minutes.is_some() && event.trendbar[0].low.is_some()
        } else {
            self.period > 0
        }
    }

    /// Takes one event: returns the quote after it and the candle that it
    /// closed, if any. See [`updated`].
    pub fn update(&mut self, event: &SpotEvent) -> (r: (Quote, Option<Candle>))
        requires
            event_usable(old(self)@.period, *event),
        ensures
            (final(self)@, r.0, r.1) == updated(old(self)@, *event),
    {
        let time_of_event: i64 = match event.timestamp {
            Some(t) => t,
            None => 0,
        };
        match event.ask {
            Some(a) => {
                self.last_ask = a;
                self.num_asks = bump(self.num_asks);
            },
            None => {},
        }
        match event.bid {
            Some(b) => {
                self.last_bid = b;
                self.num_bids = bump(self.num_bids);
            },
            None => {},
        }
        let event_time: u32 = if event.trendbar.len() > 0 {
            match event.trendbar[0].utc_timestamp_in_minutes {
                Some(m) => m,
                None => 0,
            }
        } else {
            let units = divide(divide(divide(time_of_event, 1000), 60), self.period as i64);
            #[verifier::truncate]
            (units as u32)
        };
        let result = if event_time != self.timestamp {
            self.frozen_candle()
        } else {
            None
        };
        self.timestamp = event_time;
        if event.trendbar.len() > 0 {
            let bar = event.trendbar[0];
            let low = match bar.low {
                Some(l) => l,
                None => 0,
            };
            self.open = price_at(low, bar.delta_open);
            self.high = price_at(low, bar.delta_high);
            self.low = low;
            self.vol = add_volume(
                self.vol,
                #[verifier::truncate]
                (bar.volume as u64),
            );
        }
        let quote = Quote { timestamp: time_of_event, ask: self.last_ask, bid: self.last_bid };
        (quote, result)
    }
}

} // verus!
