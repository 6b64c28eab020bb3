//! Common vocabulary of live trading: order sides, types and states,
//! time-in-force, candle intervals and client order identifiers.
use vstd::prelude::*;
use rand::Rng;
use crate::text::{decimal_digits, hex_fixed, spec_decimal, spec_hex_fixed};

verus! {

/// Side of an order.
#[derive(Debug, Clone, Copy, PartialEq, Eq, Structural, Hash)]
pub enum Side {
    /// Buy order.
    Buy,
    /// Sell order.
    Sell,
}

impl Side {
    /// The display text of the side (`BUY` / `SELL`).
    pub fn as_str(&self) -> (s: &'static str)
        ensures
            s@ == (match *self {
                Side::Buy => "BUY"@,
                Side::Sell => "SELL"@,
            }),
    {
        match self {
            Side::Buy => "BUY",
            Side::Sell => "SELL",
        }
    }
}

/// Type of order.
#[derive(Debug, Clone, Copy, PartialEq, Eq, Structural, Hash)]
pub enum OrderType {
    /// Market order - executes immediately at best available price.
    Market,
    /// Limit order - executes at specified price or better.
    Limit,
    /// Stop-loss order - triggers market order when price reaches stop.
    StopLoss,
    /// Stop-limit order - triggers limit order when price reaches stop.
    StopLimit,
    /// Take-profit order.
    TakeProfit,
    /// Trailing stop order.
    TrailingStop,
}

impl OrderType {
    /// The display text of the order type.
    pub fn as_str(&self) -> (s: &'static str)
        ensures
            s@ == (match *self {
                OrderType::Market => "MARKET"@,
                OrderType::Limit => "LIMIT"@,
                OrderType::StopLoss => "STOP_LOSS"@,
                OrderType::StopLimit => "STOP_LIMIT"@,
                OrderType::TakeProfit => "TAKE_PROFIT"@,
                OrderType::TrailingStop => "TRAILING_STOP"@,
            }),
    {
        match self {
            OrderType::Market => "MARKET",
            OrderType::Limit => "LIMIT",
            OrderType::StopLoss => "STOP_LOSS",
            OrderType::StopLimit => "STOP_LIMIT",
            OrderType::TakeProfit => "TAKE_PROFIT",
            OrderType::TrailingStop => "TRAILING_STOP",
        }
    }
}

/// Status of an order.
#[derive(Debug, Clone, Copy, PartialEq, Eq, Structural, Hash)]
pub enum OrderStatus {
    /// Order is pending submission.
    Pending,
    /// Order has been submitted to exchange.
    Submitted,
    /// Order is partially filled.
    PartiallyFilled,
    /// Order is fully filled.
    Filled,
    /// Order has been cancelled.
    Cancelled,
    /// Order was rejected.
    Rejected,
    /// Order has expired.
    Expired,
}

impl OrderStatus {
    /// A terminal state: filled, cancelled, rejected or expired.
    pub open spec fn spec_is_terminal(self) -> bool {
        self is Filled || self is Cancelled || self is Rejected || self is Expired
    }

    /// An active state: pending, submitted or partially filled.
    pub open spec fn spec_is_active(self) -> bool {
        self is Pending || self is Submitted || self is PartiallyFilled
    }

    /// Returns true if the order is in a terminal state.
    pub fn is_terminal(&self) -> (b: bool)
        ensures
            b == self.spec_is_terminal(),
    {
        match self {
            OrderStatus::Filled | OrderStatus::Cancelled | OrderStatus::Rejected
            | OrderStatus::Expired => true,
            _ => false,
        }
    }

    /// Returns true if the order is still active.
    pub fn is_active(&self) -> (b: bool)
        ensures
            b == self.spec_is_active(),
    {
        match self {
            OrderStatus::Pending | OrderStatus::Submitted | OrderStatus::PartiallyFilled => true,
            _ => false,
        }
    }
}

/// Every order status is either terminal or active, and never both.
pub proof fn lemma_status_terminal_xor_active(s: OrderStatus)
    ensures
        s.spec_is_terminal() != s.spec_is_active(),
{
}

/// Time in force for orders.
#[derive(Debug, Clone, Copy, PartialEq, Eq, Structural, Hash)]
pub enum TimeInForce {
    /// Good till cancelled.
    GTC,
    /// Immediate or cancel - fill what you can, cancel rest.
    IOC,
    /// Fill or kill - fill entirely or cancel.
    FOK,
    /// Good till date.
    GTD(u64),
}

impl Default for TimeInForce {
    fn default() -> (t: Self)
        ensures
            t == TimeInForce::GTC,
    {
        TimeInForce::GTC
    }
}

/// Timeframe for candles.
#[derive(Debug, Clone, Copy, PartialEq, Eq, Structural, Hash)]
pub enum Interval {
    /// 1 minute.
    M1,
    /// 3 minutes.
    M3,
    /// 5 minutes.
    M5,
    /// 15 minutes.
    M15,
    /// 30 minutes.
    M30,
    /// 1 hour.
    H1,
    /// 2 hours.
    H2,
    /// 4 hours.
    H4,
    /// 6 hours.
    H6,
    /// 8 hours.
    H8,
    /// 12 hours.
    H12,
    /// 1 day.
    D1,
    /// 3 days.
    D3,
    /// 1 week.
    W1,
    /// 1 month (30 days).
    Mo1,
}

impl Interval {
    /// The length of the interval in minutes.
    pub open spec fn spec_minutes(self) -> nat {
        match self {
            Interval::M1 => 1,
            Interval::M3 => 3,
            Interval::M5 => 5,
            Interval::M15 => 15,
            Interval::M30 => 30,
            Interval::H1 => 60,
            Interval::H2 => 120,
            Interval::H4 => 240,
            Interval::H6 => 360,
            Interval::H8 => 480,
            Interval::H12 => 720,
            Interval::D1 => 1440,
            Interval::D3 => 4320,
            Interval::W1 => 10080,
            Interval::Mo1 => 43200,
        }
    }

    /// Convert to milliseconds.
    pub fn to_millis(&self) -> (ms: u64)
        ensures
            ms == self.spec_minutes() * 60_000,
    {
        match self {
            Interval::M1 => 60_000,
            Interval::M3 => 180_000,
            Interval::M5 => 300_000,
            Interval::M15 => 900_000,
            Interval::M30 => 1_800_000,
            Interval::H1 => 3_600_000,
            Interval::H2 => 7_200_000,
            Interval::H4 => 14_400_000,
            Interval::H6 => 21_600_000,
            Interval::H8 => 28_800_000,
            Interval::H12 => 43_200_000,
            Interval::D1 => 86_400_000,
            Interval::D3 => 259_200_000,
            Interval::W1 => 604_800_000,
            Interval::Mo1 => 2_592_000_000,
        }
    }

    /// The display text of the interval.
    pub open spec fn spec_label(self) -> Seq<char> {
    match self {
            Interval::M1 => "1m"@,
            Interval::M3 => "3m"@,
            Interval::M5 => "5m"@,
            Interval::M15 => "15m"@,
            Interval::M30 => "30m"@,
            Interval::H1 => "1h"@,
            Interval::H2 => "2h"@,
            Interval::H4 => "4h"@,
            Interval::H6 => "6h"@,
            Interval::H8 => "8h"@,
            Interval::H12 => "12h"@,
            Interval::D1 => "1d"@,
            Interval::D3 => "3d"@,
            Interval::W1 => "1w"@,
            Interval::Mo1 => "1M"@,
    }
    }

    /// The display text of the interval (`1m`, `4h`, `1d`, `1M`, ...).
    pub fn as_str(&self) -> (s: &'static str)
        ensures
            s@ == self.spec_label(),
    {
        match self {
            Interval::M1 => "1m",
            Interval::M3 => "3m",
            Interval::M5 => "5m",
            Interval::M15 => "15m",
            Interval::M30 => "30m",
            Interval::H1 => "1h",
            Interval::H2 => "2h",
            Interval::H4 => "4h",
            Interval::H6 => "6h",
            Interval::H8 => "8h",
            Interval::H12 => "12h",
            Interval::D1 => "1d",
            Interval::D3 => "3d",
            Interval::W1 => "1w",
            Interval::Mo1 => "1M",
        }
    }
}

/// Draws a `u32` from `rand::thread_rng`.  Nothing is claimed of the value.
#[verifier::external_body]
fn random_u32() -> (r: u32) {
    rand::thread_rng().gen::<u32>()
}

/// The identifier text `octane_{timestamp}_{random:08x}`.
pub open spec fn spec_client_order_id(timestamp: u64, random: u32) -> Seq<char> {
    "octane_"@ + spec_decimal(timestamp as nat) + seq!['_'] + spec_hex_fixed(random as nat, 8)
}

/// Builds a client order identifier from a timestamp and a random word.
pub fn client_order_id(timestamp: u64, random: u32) -> (s: String)
    ensures
        s@ == spec_client_order_id(timestamp, random),
{
    let mut s = String::from_str("octane_");
    let ts = decimal_digits(timestamp as u128);
    s.append(ts.as_str());
    s.append("_");
    let h = hex_fixed(random as u64, 8);
    s.append(h.as_str());
    proof {
        reveal_strlit("_");
    }
    s
}

/// Generates a fresh client order identifier from the clock and a random
/// word: the identifier text of some millisecond timestamp and some word.
pub fn generate_client_order_id() -> (s: String)
    ensures
        exists|timestamp: u64, random: u32| s@ == spec_client_order_id(timestamp, random),
{
    let timestamp = crate::clock::current_timestamp_ms();
    let random = random_u32();
    let s = client_order_id(timestamp, random);
    assert(s@ == spec_client_order_id(timestamp, random));
    s
}

/// Position of an interval in the list from shortest to longest.
pub open spec fn interval_rank(i: Interval) -> nat {
    match i {
        Interval::M1 => 0, Interval::M3 => 1, Interval::M5 => 2, Interval::M15 => 3,
        Interval::M30 => 4, Interval::H1 => 5, Interval::H2 => 6, Interval::H4 => 7,
        Interval::H6 => 8, Interval::H8 => 9, Interval::H12 => 10, Interval::D1 => 11,
        Interval::D3 => 12, Interval::W1 => 13, Interval::Mo1 => 14,
    }
}

/// Each interval lasts what its name says: a minute is one minute, an hour
/// sixty minutes, a day twenty-four hours, a week seven days and a month
/// thirty days, and every other interval is the named multiple of its unit.
/// So the lengths grow strictly along the list of intervals.
pub proof fn lemma_interval_lengths()
    ensures
        Interval::M1.spec_minutes() == 1,
        Interval::M3.spec_minutes() == 3 * Interval::M1.spec_minutes(),
        Interval::M5.spec_minutes() == 5 * Interval::M1.spec_minutes(),
        Interval::M15.spec_minutes() == 15 * Interval::M1.spec_minutes(),
        Interval::M30.spec_minutes() == 30 * Interval::M1.spec_minutes(),
        Interval::H1.spec_minutes() == 60 * Interval::M1.spec_minutes(),
        Interval::H2.spec_minutes() == 2 * Interval::H1.spec_minutes(),
        Interval::H4.spec_minutes() == 4 * Interval::H1.spec_minutes(),
        Interval::H6.spec_minutes() == 6 * Interval::H1.spec_minutes(),
        Interval::H8.spec_minutes() == 8 * Interval::H1.spec_minutes(),
        Interval::H12.spec_minutes() == 12 * Interval::H1.spec_minutes(),
        Interval::D1.spec_minutes() == 24 * Interval::H1.spec_minutes(),
        Interval::D3.spec_minutes() == 3 * Interval::D1.spec_minutes(),
        Interval::W1.spec_minutes() == 7 * Interval::D1.spec_minutes(),
        Interval::Mo1.spec_minutes() == 30 * Interval::D1.spec_minutes(),
        forall|a: Interval, b: Interval| interval_rank(a) < interval_rank(b)
            ==> #[trigger] a.spec_minutes() < #[trigger] b.spec_minutes(),
{
}

} // verus!
