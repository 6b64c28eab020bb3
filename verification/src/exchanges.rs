//! Exchange-side bookkeeping shared by the connectors: connection states,
//! rate limits, credentials and request signatures.
use vstd::prelude::*;
use vstd::string::StringSliceAdditionalSpecFns;
use std::collections::HashMap;
use std::time::Instant;
use crate::clock::{monotonic_now, nanos_elapsed};
use crate::text::{bytes_of, hex_digit, push_char, spec_hex_digit};
use crate::sha256::{hmac_sha256_bytes, spec_hmac_sha256};

verus! {

/// Exchange connection status.
#[derive(Debug, Clone, Copy, PartialEq, Eq, Structural)]
pub enum ConnectionStatus {
    /// Not connected.
    Disconnected,
    /// Currently connecting.
    Connecting,
    /// Connected and ready.
    Connected,
    /// Connection lost, attempting to reconnect.
    Reconnecting,
    /// Connection error.
    Error,
}

/// Rate limit type.
#[derive(Debug, Clone, Copy, PartialEq, Eq, Structural)]
pub enum RateLimitType {
    /// Request weight limit.
    RequestWeight,
    /// Order rate limit.
    Orders,
    /// Raw requests limit.
    RawRequests,
}

/// Rate limit information.
#[derive(Debug, Clone)]
pub struct RateLimit {
    /// Limit type.
    pub limit_type: RateLimitType,
    /// Interval in seconds.
    pub interval_seconds: u64,
    /// Maximum requests in interval.
    pub limit: u64,
}

/// Rate limiter for API requests: a request weight budget and an order
/// budget, both refilled when the reset interval has elapsed.
#[derive(Debug)]
pub struct RateLimiter {
    /// Request weights by endpoint.
    weights: HashMap<String, u64>,
    /// Current weight used.
    current_weight: u64,
    /// Weight limit.
    weight_limit: u64,
    /// Order count.
    order_count: u64,
    /// Order limit.
    order_limit: u64,
    /// Last reset time.
    last_reset: Instant,
    /// Reset interval in nanoseconds.
    reset_nanos: u128,
}

impl RateLimiter {
    /// Weight used in the current window.
    pub closed spec fn spec_current_weight(&self) -> u64 {
        self.current_weight
    }

    /// Weight allowed per window.
    pub closed spec fn spec_weight_limit(&self) -> u64 {
        self.weight_limit
    }

    /// Orders placed in the current window.
    pub closed spec fn spec_order_count(&self) -> u64 {
        self.order_count
    }

    /// Orders allowed per window.
    pub closed spec fn spec_order_limit(&self) -> u64 {
        self.order_limit
    }

    /// Length of a window in nanoseconds.
    pub closed spec fn spec_reset_nanos(&self) -> u128 {
        self.reset_nanos
    }

    /// Start of the current window.
    pub closed spec fn spec_last_reset(&self) -> Instant {
        self.last_reset
    }

    /// Create a new rate limiter with empty budgets used.
    pub fn new(weight_limit: u64, order_limit: u64, reset_seconds: u64) -> (r: Self)
        ensures
            r.spec_current_weight() == 0,
            r.spec_weight_limit() == weight_limit,
            r.spec_order_count() == 0,
            r.spec_order_limit() == order_limit,
            r.spec_reset_nanos() == reset_seconds as nat * 1_000_000_000,
    {
        Self {
            weights: HashMap::new(),
            current_weight: 0,
            weight_limit,
            order_count: 0,
            order_limit,
            last_reset: monotonic_now(),
            reset_nanos: (reset_seconds as u128) * 1_000_000_000,
        }
    }

    /// Check if we can make a request with given weight: judged on the
    /// clock, so that once the current window has run its interval only the
    /// request itself counts against the limit.  Which reading the clock
    /// gives is not stated: the answer is `spec_fits_after` at some elapsed
    /// time; it is yes whenever the request fits the weight used so far, and
    /// no whenever the request alone is over the limit.
    pub fn can_request(&self, weight: u64) -> (b: bool)
        requires
            self.spec_current_weight() + weight <= u64::MAX,
        ensures
            exists|elapsed: u128| b == self.spec_fits_after(weight, elapsed),
            self.spec_current_weight() + weight <= self.spec_weight_limit() ==> b,
            weight > self.spec_weight_limit() ==> !b,
    {
        let elapsed = nanos_elapsed(&self.last_reset);
        self.can_request_after(weight, elapsed)
    }

    /// Check if we can place an order.
    pub fn can_order(&self) -> (b: bool)
        ensures
            b == (self.spec_order_count() < self.spec_order_limit()),
    {
        self.order_count < self.order_limit
    }

    /// Whether a request of `weight` fits once the current window has lasted
    /// `elapsed_nanos`: in a new window (the interval has elapsed) only the
    /// request itself counts, otherwise it comes on top of the weight used.
    pub open spec fn spec_fits_after(&self, weight: u64, elapsed_nanos: u128) -> bool {
        if elapsed_nanos >= self.spec_reset_nanos() {
            weight <= self.spec_weight_limit()
        } else {
            self.spec_current_weight() + weight <= self.spec_weight_limit()
        }
    }

    /// Whether a request of `weight` can be made once the current window has
    /// lasted `elapsed_nanos`, the window being renewed when its interval
    /// has elapsed.
    pub fn can_request_after(&self, weight: u64, elapsed_nanos: u128) -> (b: bool)
        requires
            self.spec_current_weight() + weight <= u64::MAX,
        ensures
            b == self.spec_fits_after(weight, elapsed_nanos),
    {
        if elapsed_nanos >= self.reset_nanos {
            weight <= self.weight_limit
        } else {
            self.current_weight + weight <= self.weight_limit
        }
    }

    /// Starts a new window when `elapsed_nanos` (time since the current
    /// window began) has reached the reset interval: both counters drop to
    /// zero and the window restarts at `now`.  Otherwise nothing changes.
    pub fn roll_window(&mut self, elapsed_nanos: u128, now: Instant)
        ensures
            final(self).spec_weight_limit() == old(self).spec_weight_limit(),
            final(self).spec_order_limit() == old(self).spec_order_limit(),
            final(self).spec_reset_nanos() == old(self).spec_reset_nanos(),
            elapsed_nanos >= old(self).spec_reset_nanos() ==> {
                &&& final(self).spec_current_weight() == 0
                &&& final(self).spec_order_count() == 0
                &&& final(self).spec_last_reset() == now
            },
            elapsed_nanos < old(self).spec_reset_nanos() ==> *final(self) == *old(self),
    {
        if elapsed_nanos >= self.reset_nanos {
            self.current_weight = 0;
            self.order_count = 0;
            self.last_reset = now;
        }
    }

    /// Refills both budgets if the reset interval has elapsed on the clock:
    /// either the limiter is left exactly as it was, or both counters drop
    /// to zero; with a zero interval the interval has always elapsed.
    pub fn maybe_reset(&mut self)
        ensures
            final(self).spec_weight_limit() == old(self).spec_weight_limit(),
            final(self).spec_order_limit() == old(self).spec_order_limit(),
            final(self).spec_reset_nanos() == old(self).spec_reset_nanos(),
            *final(self) == *old(self)
            || (final(self).spec_current_weight() == 0 && final(self).spec_order_count() == 0),
            (final(self).spec_current_weight() == old(self).spec_current_weight()
                && final(self).spec_order_count() == old(self).spec_order_count())
            || (final(self).spec_current_weight() == 0 && final(self).spec_order_count() == 0),
            old(self).spec_reset_nanos() == 0 ==> final(self).spec_current_weight() == 0
                && final(self).spec_order_count() == 0,
    {
        let elapsed = nanos_elapsed(&self.last_reset);
        if elapsed >= self.reset_nanos {
            let now = monotonic_now();
            self.roll_window(elapsed, now);
        }
    }

    /// Records a request of `weight` when the current window has lasted
    /// `elapsed_nanos`: in a window that has run its interval the budgets
    /// restart at `now` with only this request counted; otherwise the weight
    /// is added to the window's.
    pub fn record_request_after(&mut self, weight: u64, elapsed_nanos: u128, now: Instant)
        requires
            old(self).spec_current_weight() + weight <= u64::MAX,
        ensures
            final(self).spec_weight_limit() == old(self).spec_weight_limit(),
            final(self).spec_order_limit() == old(self).spec_order_limit(),
            final(self).spec_reset_nanos() == old(self).spec_reset_nanos(),
            elapsed_nanos >= old(self).spec_reset_nanos() ==> {
                &&& final(self).spec_current_weight() == weight
                &&& final(self).spec_order_count() == 0
                &&& final(self).spec_last_reset() == now
            },
            elapsed_nanos < old(self).spec_reset_nanos() ==> {
                &&& final(self).spec_current_weight() == old(self).spec_current_weight() + weight
                &&& final(self).spec_order_count() == old(self).spec_order_count()
                &&& final(self).spec_last_reset() == old(self).spec_last_reset()
            },
    {
        self.roll_window(elapsed_nanos, now);
        self.current_weight = self.current_weight + weight;
    }

    /// Records an order when the current window has lasted `elapsed_nanos`:
    /// in a window that has run its interval the budgets restart at `now`
    /// with only this order counted; otherwise the order count grows by one.
    pub fn record_order_after(&mut self, elapsed_nanos: u128, now: Instant)
        requires
            old(self).spec_order_count() < u64::MAX,
        ensures
            final(self).spec_weight_limit() == old(self).spec_weight_limit(),
            final(self).spec_order_limit() == old(self).spec_order_limit(),
            final(self).spec_reset_nanos() == old(self).spec_reset_nanos(),
            elapsed_nanos >= old(self).spec_reset_nanos() ==> {
                &&& final(self).spec_order_count() == 1
                &&& final(self).spec_current_weight() == 0
                &&& final(self).spec_last_reset() == now
            },
            elapsed_nanos < old(self).spec_reset_nanos() ==> {
                &&& final(self).spec_order_count() == old(self).spec_order_count() + 1
                &&& final(self).spec_current_weight() == old(self).spec_current_weight()
                &&& final(self).spec_last_reset() == old(self).spec_last_reset()
            },
    {
        self.roll_window(elapsed_nanos, now);
        self.order_count = self.order_count + 1;
    }

    /// Record a request of the given weight, after refilling the budgets if
    /// the window has expired.
    pub fn record_request(&mut self, weight: u64)
        requires
            old(self).spec_current_weight() + weight <= u64::MAX,
        ensures
            final(self).spec_weight_limit() == old(self).spec_weight_limit(),
            final(self).spec_order_limit() == old(self).spec_order_limit(),
            final(self).spec_reset_nanos() == old(self).spec_reset_nanos(),
            (final(self).spec_current_weight() == old(self).spec_current_weight() + weight
                && final(self).spec_order_count() == old(self).spec_order_count())
            || (final(self).spec_current_weight() == weight && final(self).spec_order_count() == 0),
    {
        let elapsed = nanos_elapsed(&self.last_reset);
        let now = monotonic_now();
        self.record_request_after(weight, elapsed, now);
    }

    /// Record an order, after refilling the budgets if the window has expired.
    pub fn record_order(&mut self)
        requires
            old(self).spec_order_count() < u64::MAX,
        ensures
            final(self).spec_weight_limit() == old(self).spec_weight_limit(),
            final(self).spec_order_limit() == old(self).spec_order_limit(),
            final(self).spec_reset_nanos() == old(self).spec_reset_nanos(),
            (final(self).spec_order_count() == old(self).spec_order_count() + 1
                && final(self).spec_current_weight() == old(self).spec_current_weight())
            || (final(self).spec_order_count() == 1 && final(self).spec_current_weight() == 0),
    {
        let elapsed = nanos_elapsed(&self.last_reset);
        let now = monotonic_now();
        self.record_order_after(elapsed, now);
    }

    /// The wait in milliseconds, rounded up (kept to 64 bits), before a
    /// request of `weight` fits, when the current window has lasted
    /// `elapsed_nanos`: none when it fits the weight used so far or the
    /// window has run its interval, else the rest of the window.
    pub open spec fn spec_wait_ms(&self, weight: u64, elapsed_nanos: u128) -> u64 {
        if self.spec_current_weight() + weight <= self.spec_weight_limit()
            || elapsed_nanos >= self.spec_reset_nanos() {
            0
        } else {
            ((self.spec_reset_nanos() - elapsed_nanos - 1) / 1_000_000 + 1) as u64
        }
    }

    /// The wait, in milliseconds rounded up, before a request of `weight`
    /// may be made, given how long the current window has lasted.
    pub fn wait_time_after(&self, weight: u64, elapsed_nanos: u128) -> (ms: u64)
        requires
            self.spec_current_weight() + weight <= u64::MAX,
        ensures
            ms == self.spec_wait_ms(weight, elapsed_nanos),
    {
        if self.current_weight + weight <= self.weight_limit {
            return 0;
        }
        if elapsed_nanos >= self.reset_nanos {
            return 0;
        }
        ((self.reset_nanos - elapsed_nanos - 1) / 1_000_000 + 1) as u64
    }

    /// Get wait time in milliseconds until we can make a request: the wait
    /// of `wait_time_after` for the clock's reading of how long the current
    /// window has lasted (which reading is not stated).  Once that much more
    /// time has passed, a request within the weight limit fits
    /// (`lemma_wait_then_fits`).
    pub fn wait_time_ms(&self, weight: u64) -> (ms: u64)
        requires
            self.spec_current_weight() + weight <= u64::MAX,
        ensures
            exists|elapsed: u128| ms == self.spec_wait_ms(weight, elapsed),
    {
        let elapsed = nanos_elapsed(&self.last_reset);
        self.wait_time_after(weight, elapsed)
    }
}


/// Waiting the returned time lets any request within the weight limit
/// through: once the current window has lasted that much longer, the window
/// has been renewed, or the request already fit.  (For an interval whose
/// milliseconds exceed 64 bits the returned time is cut to 64 bits and the
/// law does not hold.)
pub proof fn lemma_wait_then_fits(l: RateLimiter, weight: u64, elapsed: u128, later: u128)
    requires
        weight <= l.spec_weight_limit(),
        l.spec_reset_nanos() <= u64::MAX as int * 1_000_000,
        later >= elapsed + l.spec_wait_ms(weight, elapsed) * 1_000_000,
    ensures
        l.spec_fits_after(weight, later),
{
    if !(l.spec_current_weight() + weight <= l.spec_weight_limit()) && elapsed < l.spec_reset_nanos() {
        let gap = (l.spec_reset_nanos() - elapsed) as int;
        let ms = (gap - 1) / 1_000_000 + 1;
        assert(gap <= ms * 1_000_000) by (nonlinear_arith)
            requires gap >= 1, ms == (gap - 1) / 1_000_000 + 1;
        assert(ms <= u64::MAX) by (nonlinear_arith)
            requires gap >= 1, ms == (gap - 1) / 1_000_000 + 1, gap <= u64::MAX as int * 1_000_000;
        assert(l.spec_wait_ms(weight, elapsed) == ms);
    }
}

/// The wait is the rest of the current window, rounded up to whole
/// milliseconds: nothing once the window has run its interval or the request
/// already fits; otherwise one millisecond less would end before the window
/// does, and the returned wait ends at or after it.
pub proof fn lemma_wait_is_rest_of_window(l: RateLimiter, weight: u64, elapsed: u128)
    requires
        l.spec_reset_nanos() <= u64::MAX as int * 1_000_000,
    ensures
        elapsed >= l.spec_reset_nanos() ==> l.spec_wait_ms(weight, elapsed) == 0,
        l.spec_current_weight() + weight <= l.spec_weight_limit() ==> l.spec_wait_ms(weight, elapsed) == 0,
        elapsed < l.spec_reset_nanos() && l.spec_current_weight() + weight > l.spec_weight_limit() ==> {
            &&& (l.spec_wait_ms(weight, elapsed) - 1) * 1_000_000 < l.spec_reset_nanos() - elapsed
            &&& l.spec_reset_nanos() - elapsed <= l.spec_wait_ms(weight, elapsed) * 1_000_000
        },
{
    if elapsed < l.spec_reset_nanos() && l.spec_current_weight() + weight > l.spec_weight_limit() {
        let gap = (l.spec_reset_nanos() - elapsed) as int;
        let ms = (gap - 1) / 1_000_000 + 1;
        assert(gap <= ms * 1_000_000 && (ms - 1) * 1_000_000 < gap) by (nonlinear_arith)
            requires gap >= 1, ms == (gap - 1) / 1_000_000 + 1;
        assert(ms <= u64::MAX) by (nonlinear_arith)
            requires gap >= 1, ms == (gap - 1) / 1_000_000 + 1, gap <= u64::MAX as int * 1_000_000;
        assert(l.spec_wait_ms(weight, elapsed) == ms);
    }
}

/// Authentication credentials.
#[derive(Debug, Clone)]
pub struct ApiCredentials {
    /// API key.
    pub api_key: String,
    /// API secret.
    pub api_secret: String,
    /// Optional passphrase (for some exchanges).
    pub passphrase: Option<String>,
}

impl ApiCredentials {
    /// Create new credentials.
    pub fn new(api_key: &str, api_secret: &str) -> (c: Self)
        ensures
            c.api_key@ == api_key@,
            c.api_secret@ == api_secret@,
            c.passphrase is None,
    {
        Self {
            api_key: String::from_str(api_key),
            api_secret: String::from_str(api_secret),
            passphrase: None,
        }
    }

    /// Set passphrase.
    pub fn with_passphrase(self, passphrase: &str) -> (c: Self)
        ensures
            c.api_key@ == self.api_key@,
            c.api_secret@ == self.api_secret@,
            c.passphrase matches Some(p) && p@ == passphrase@,
    {
        ApiCredentials {
            api_key: self.api_key,
            api_secret: self.api_secret,
            passphrase: Some(String::from_str(passphrase)),
        }
    }
}

/// Character `j` of the lower-case hex form of `bytes`, two digits per byte.
pub open spec fn hex_char(bytes: Seq<u8>, j: int) -> char {
    let x = bytes[j / 2];
    if j % 2 == 0 { spec_hex_digit(x as nat / 16) } else { spec_hex_digit(x as nat % 16) }
}

/// The lower-case hex form of `bytes`.
pub open spec fn spec_hex(bytes: Seq<u8>) -> Seq<char> {
    Seq::new(2 * bytes.len(), |j: int| hex_char(bytes, j))
}

/// The request signature of `message` under `secret` (over their bytes): the
/// lower-case hex form of their HMAC-SHA256.
pub open spec fn spec_signature(secret: Seq<u8>, message: Seq<u8>) -> Seq<char> {
    spec_hex(spec_hmac_sha256(secret, message))
}

/// HMAC-SHA256 signature helper: the 64 lower-case hex digits of the
/// HMAC-SHA256 of `message` keyed by `secret`.
pub fn hmac_sha256(secret: &str, message: &str) -> (sig: String)
    ensures
        sig@ == spec_signature(secret.spec_bytes(), message.spec_bytes()),
        sig@.len() == 64,
{
    let s = bytes_of(secret);
    let m = bytes_of(message);
    let d = hmac_sha256_bytes(&s, &m);
    let mut out = String::new();
    let mut i: usize = 0;
    while i < d.len()
        invariant
            i <= d.len(),
            d@.len() == 32,
            out@.len() == 2 * i,
            forall|j: int| 0 <= j < 2 * i ==> out@[j] == hex_char(d@, j),
        decreases d.len() - i,
    {
        let x: u8 = d[i];
        push_char(&mut out, hex_digit(x / 16));
        push_char(&mut out, hex_digit(x % 16));
        proof {
            assert((2 * i) / 2 == i && (2 * i) % 2 == 0);
            assert((2 * i + 1) / 2 == i && (2 * i + 1) % 2 == 1);
        }
        i = i + 1;
    }
    assert(out@ =~= spec_hex(d@));
    out
}

} // verus!
