//! Bybit connector: configuration, endpoints, wire-format conversions and
//! request signatures.  The network calls themselves live outside the
//! library; everything they are handed is computed here.
use vstd::prelude::*;
use crate::exchanges::{ApiCredentials, ConnectionStatus, RateLimiter, hmac_sha256, spec_signature};
use crate::live_types::{Interval, OrderStatus, OrderType, TimeInForce};
use crate::text::{decimal_digits, spec_decimal, str_eq};
use crate::binance::spec_tif_text;

verus! {

/// Bybit account type.
#[derive(Debug, Clone, Copy, PartialEq, Eq, Structural)]
pub enum BybitAccountType {
    /// Unified Trading Account.
    Unified,
    /// Standard (non-unified) account.
    Standard,
    /// Spot account.
    Spot,
}

impl Default for BybitAccountType {
    fn default() -> (a: Self)
        ensures
            a == BybitAccountType::Unified,
    {
        BybitAccountType::Unified
    }
}

/// Bybit category (market type).
#[derive(Debug, Clone, Copy, PartialEq, Eq, Structural)]
pub enum BybitCategory {
    /// Spot trading.
    Spot,
    /// Linear perpetuals (USDT).
    Linear,
    /// Inverse perpetuals.
    Inverse,
    /// Options.
    Option,
}

impl Default for BybitCategory {
    fn default() -> (c: Self)
        ensures
            c == BybitCategory::Linear,
    {
        BybitCategory::Linear
    }
}

impl BybitCategory {
    /// The category's wire text.
    pub open spec fn spec_text(self) -> Seq<char> {
        match self {
            BybitCategory::Spot => "spot"@,
            BybitCategory::Linear => "linear"@,
            BybitCategory::Inverse => "inverse"@,
            BybitCategory::Option => "option"@,
        }
    }

    /// The category's wire text (`spot`, `linear`, `inverse`, `option`).
    pub fn to_string(&self) -> (s: &'static str)
        ensures
            s@ == self.spec_text(),
    {
        match self {
            BybitCategory::Spot => "spot",
            BybitCategory::Linear => "linear",
            BybitCategory::Inverse => "inverse",
            BybitCategory::Option => "option",
        }
    }
}

/// Bybit connector configuration.
#[derive(Debug, Clone)]
pub struct BybitConfig {
    /// API credentials.
    pub credentials: Option<ApiCredentials>,
    /// Account type.
    pub account_type: BybitAccountType,
    /// Default category for trading.
    pub default_category: BybitCategory,
    /// Use testnet.
    pub testnet: bool,
    /// Request timeout in milliseconds.
    pub timeout_ms: u64,
    /// Receive window for signed requests.
    pub recv_window: u64,
    /// Enable WebSocket streams.
    pub enable_websocket: bool,
    /// WebSocket ping interval in seconds.
    pub ws_ping_interval: u64,
    /// Auto-reconnect on disconnect.
    pub auto_reconnect: bool,
    /// Maximum reconnection attempts.
    pub max_reconnect_attempts: u32,
}

impl BybitConfig {
    /// The settings of a fresh configuration: unified account, linear
    /// category, production, 5 s timeout and receive window, WebSocket on
    /// with a 20 s ping, auto-reconnect with at most 5 attempts, and no
    /// credentials.
    pub open spec fn is_default(self) -> bool {
        &&& self.credentials is None
        &&& self.account_type == BybitAccountType::Unified
        &&& self.default_category == BybitCategory::Linear
        &&& !self.testnet
        &&& self.timeout_ms == 5000
        &&& self.recv_window == 5000
        &&& self.enable_websocket
        &&& self.ws_ping_interval == 20
        &&& self.auto_reconnect
        &&& self.max_reconnect_attempts == 5
    }

    /// Everything but the credentials is the same.
    pub open spec fn same_settings(self, other: Self) -> bool {
        &&& self.account_type == other.account_type
        &&& self.default_category == other.default_category
        &&& self.testnet == other.testnet
        &&& self.timeout_ms == other.timeout_ms
        &&& self.recv_window == other.recv_window
        &&& self.enable_websocket == other.enable_websocket
        &&& self.ws_ping_interval == other.ws_ping_interval
        &&& self.auto_reconnect == other.auto_reconnect
        &&& self.max_reconnect_attempts == other.max_reconnect_attempts
    }

    /// Create new config.
    pub fn new() -> (c: Self)
        ensures
            c.is_default(),
    {
        Self::default()
    }

    /// Set API key, keeping the secret already set (or an empty one).
    pub fn api_key(self, key: &str) -> (c: Self)
        ensures
            c.same_settings(self),
            c.credentials matches Some(cr) && cr.api_key@ == key@ && cr.passphrase is None
                && cr.api_secret@ == (match self.credentials {
                    Some(old) => old.api_secret@,
                    None => Seq::<char>::empty(),
                }),
    {
        let secret = match &self.credentials {
            Some(c) => c.api_secret.clone(),
            None => String::new(),
        };
        BybitConfig { credentials: Some(ApiCredentials::new(key, secret.as_str())), ..self }
    }

    /// Set API secret, keeping the key already set (or an empty one).
    pub fn api_secret(self, secret: &str) -> (c: Self)
        ensures
            c.same_settings(self),
            c.credentials matches Some(cr) && cr.api_secret@ == secret@ && cr.passphrase is None
                && cr.api_key@ == (match self.credentials {
                    Some(old) => old.api_key@,
                    None => Seq::<char>::empty(),
                }),
    {
        let key = match &self.credentials {
            Some(c) => c.api_key.clone(),
            None => String::new(),
        };
        BybitConfig { credentials: Some(ApiCredentials::new(key.as_str(), secret)), ..self }
    }

    /// Set account type.
    pub fn account_type(self, account_type: BybitAccountType) -> (c: Self)
        ensures
            c == (BybitConfig { account_type, ..self }),
    {
        BybitConfig { account_type, ..self }
    }

    /// Set default category.
    pub fn default_category(self, category: BybitCategory) -> (c: Self)
        ensures
            c == (BybitConfig { default_category: category, ..self }),
    {
        BybitConfig { default_category: category, ..self }
    }

    /// Enable testnet.
    pub fn testnet(self, enabled: bool) -> (c: Self)
        ensures
            c == (BybitConfig { testnet: enabled, ..self }),
    {
        BybitConfig { testnet: enabled, ..self }
    }

    /// Set request timeout.
    pub fn timeout_ms(self, ms: u64) -> (c: Self)
        ensures
            c == (BybitConfig { timeout_ms: ms, ..self }),
    {
        BybitConfig { timeout_ms: ms, ..self }
    }

    /// Set receive window.
    pub fn recv_window(self, ms: u64) -> (c: Self)
        ensures
            c == (BybitConfig { recv_window: ms, ..self }),
    {
        BybitConfig { recv_window: ms, ..self }
    }

    /// Enable WebSocket.
    pub fn enable_websocket(self, enabled: bool) -> (c: Self)
        ensures
            c == (BybitConfig { enable_websocket: enabled, ..self }),
    {
        BybitConfig { enable_websocket: enabled, ..self }
    }

    /// Set auto-reconnect.
    pub fn auto_reconnect(self, enabled: bool) -> (c: Self)
        ensures
            c == (BybitConfig { auto_reconnect: enabled, ..self }),
    {
        BybitConfig { auto_reconnect: enabled, ..self }
    }
}

impl Default for BybitConfig {
    fn default() -> (c: Self)
        ensures
            c.is_default(),
    {
        Self {
            credentials: None,
            account_type: BybitAccountType::Unified,
            default_category: BybitCategory::Linear,
            testnet: false,
            timeout_ms: 5000,
            recv_window: 5000,
            enable_websocket: true,
            ws_ping_interval: 20,
            auto_reconnect: true,
            max_reconnect_attempts: 5,
        }
    }
}

/// The public WebSocket URL of a category.
pub open spec fn spec_bybit_ws_url(category: BybitCategory, testnet: bool) -> Seq<char> {
    if testnet {
        match category {
            BybitCategory::Spot => "wss://stream-testnet.bybit.com/v5/public/spot"@,
            BybitCategory::Linear => "wss://stream-testnet.bybit.com/v5/public/linear"@,
            BybitCategory::Inverse => "wss://stream-testnet.bybit.com/v5/public/inverse"@,
            BybitCategory::Option => "wss://stream-testnet.bybit.com/v5/public/option"@,
        }
    } else {
        match category {
            BybitCategory::Spot => "wss://stream.bybit.com/v5/public/spot"@,
            BybitCategory::Linear => "wss://stream.bybit.com/v5/public/linear"@,
            BybitCategory::Inverse => "wss://stream.bybit.com/v5/public/inverse"@,
            BybitCategory::Option => "wss://stream.bybit.com/v5/public/option"@,
        }
    }
}

/// The text that Bybit signs: timestamp, API key, receive window, then the
/// request parameters.
pub open spec fn spec_bybit_sign_text(
    timestamp: u64,
    api_key: Seq<char>,
    recv_window: u64,
    params: Seq<char>,
) -> Seq<char> {
    spec_decimal(timestamp as nat) + api_key + spec_decimal(recv_window as nat) + params
}

/// Bybit wire text of an interval; 8-hour and 3-day intervals, which Bybit
/// lacks, are sent as one hour.
pub open spec fn spec_bybit_interval_text(interval: Interval) -> Seq<char> {
    match interval {
        Interval::M1 => "1"@,
        Interval::M3 => "3"@,
        Interval::M5 => "5"@,
        Interval::M15 => "15"@,
        Interval::M30 => "30"@,
        Interval::H1 => "60"@,
        Interval::H2 => "120"@,
        Interval::H4 => "240"@,
        Interval::H6 => "360"@,
        Interval::H12 => "720"@,
        Interval::D1 => "D"@,
        Interval::W1 => "W"@,
        Interval::Mo1 => "M"@,
        _ => "60"@,
    }
}

/// Bybit wire text of an order type.
pub open spec fn spec_bybit_type_text(order_type: OrderType) -> Seq<char> {
    match order_type {
        OrderType::Market => "Market"@,
        OrderType::Limit => "Limit"@,
        OrderType::StopLoss | OrderType::StopLimit => "Stop"@,
        OrderType::TakeProfit => "TakeProfit"@,
        OrderType::TrailingStop => "TrailingStop"@,
    }
}

/// Bybit exchange connector state that needs no network: configuration,
/// connection status and request budget.
#[derive(Debug)]
pub struct BybitConnector {
    /// Configuration.
    pub config: BybitConfig,
    /// Connection status.
    pub status: ConnectionStatus,
    /// Rate limiter.
    pub rate_limiter: RateLimiter,
}

impl BybitConnector {
    /// Create a new Bybit connector: disconnected, 120 weight and 100 orders
    /// per 60 s window.
    pub fn new(config: BybitConfig) -> (c: Self)
        ensures
            c.config == config,
            c.status == ConnectionStatus::Disconnected,
            c.rate_limiter.spec_weight_limit() == 120,
            c.rate_limiter.spec_order_limit() == 100,
            c.rate_limiter.spec_current_weight() == 0,
            c.rate_limiter.spec_order_count() == 0,
            c.rate_limiter.spec_reset_nanos() == 60_000_000_000,
    {
        BybitConnector {
            config,
            status: ConnectionStatus::Disconnected,
            rate_limiter: RateLimiter::new(120, 100, 60),
        }
    }

    /// Exchange name for the default category.
    pub fn name(&self) -> (s: &'static str)
        ensures
            s@ == (match self.config.default_category {
                BybitCategory::Spot => "Bybit Spot"@,
                BybitCategory::Linear => "Bybit Linear Perpetuals"@,
                BybitCategory::Inverse => "Bybit Inverse Perpetuals"@,
                BybitCategory::Option => "Bybit Options"@,
            }),
    {
        match self.config.default_category {
            BybitCategory::Spot => "Bybit Spot",
            BybitCategory::Linear => "Bybit Linear Perpetuals",
            BybitCategory::Inverse => "Bybit Inverse Perpetuals",
            BybitCategory::Option => "Bybit Options",
        }
    }

    /// Get the REST API base URL.
    pub fn rest_base_url(&self) -> (s: &'static str)
        ensures
            s@ == (if self.config.testnet { "https://api-testnet.bybit.com"@ } else { "https://api.bybit.com"@ }),
    {
        if self.config.testnet {
            "https://api-testnet.bybit.com"
        } else {
            "https://api.bybit.com"
        }
    }

    /// Get the public WebSocket base URL for the default category.
    pub fn ws_base_url(&self) -> (s: &'static str)
        ensures
            s@ == spec_bybit_ws_url(self.config.default_category, self.config.testnet),
    {
        if self.config.testnet {
            match self.config.default_category {
                BybitCategory::Spot => "wss://stream-testnet.bybit.com/v5/public/spot",
                BybitCategory::Linear => "wss://stream-testnet.bybit.com/v5/public/linear",
                BybitCategory::Inverse => "wss://stream-testnet.bybit.com/v5/public/inverse",
                BybitCategory::Option => "wss://stream-testnet.bybit.com/v5/public/option",
            }
        } else {
            match self.config.default_category {
                BybitCategory::Spot => "wss://stream.bybit.com/v5/public/spot",
                BybitCategory::Linear => "wss://stream.bybit.com/v5/public/linear",
                BybitCategory::Inverse => "wss://stream.bybit.com/v5/public/inverse",
                BybitCategory::Option => "wss://stream.bybit.com/v5/public/option",
            }
        }
    }

    /// Get the private WebSocket URL.
    pub fn ws_private_url(&self) -> (s: &'static str)
        ensures
            s@ == (if self.config.testnet {
                "wss://stream-testnet.bybit.com/v5/private"@
            } else {
                "wss://stream.bybit.com/v5/private"@
            }),
    {
        if self.config.testnet {
            "wss://stream-testnet.bybit.com/v5/private"
        } else {
            "wss://stream.bybit.com/v5/private"
        }
    }

    /// Sign a request for the V5 API; `None` when no credentials are configured.
    pub fn sign_request(&self, timestamp: u64, params: &str) -> (r: Option<String>)
        ensures
            self.config.credentials is None ==> r is None,
            self.config.credentials matches Some(cr) ==> (r matches Some(sig) && sig@ == spec_signature(
                vstd::utf8::encode_utf8(cr.api_secret@),
                vstd::utf8::encode_utf8(spec_bybit_sign_text(timestamp, cr.api_key@, self.config.recv_window, params@)),
            )),
    {
        match &self.config.credentials {
            Some(cr) => {
                let mut text = decimal_digits(timestamp as u128);
                text.append(cr.api_key.as_str());
                let rw = decimal_digits(self.config.recv_window as u128);
                text.append(rw.as_str());
                text.append(params);
                Some(hmac_sha256(cr.api_secret.as_str(), text.as_str()))
            },
            None => None,
        }
    }

    /// Convert interval to Bybit text; 8-hour and 3-day intervals, which Bybit
    /// lacks, are sent as one hour.
    pub fn interval_to_string(interval: Interval) -> (s: &'static str)
        ensures
            s@ == spec_bybit_interval_text(interval),
    {
        match interval {
            Interval::M1 => "1",
            Interval::M3 => "3",
            Interval::M5 => "5",
            Interval::M15 => "15",
            Interval::M30 => "30",
            Interval::H1 => "60",
            Interval::H2 => "120",
            Interval::H4 => "240",
            Interval::H6 => "360",
            Interval::H12 => "720",
            Interval::D1 => "D",
            Interval::W1 => "W",
            Interval::Mo1 => "M",
            _ => "60",
        }
    }

    /// Convert order type to Bybit text.
    pub fn order_type_to_string(order_type: OrderType) -> (s: &'static str)
        ensures
            s@ == spec_bybit_type_text(order_type),
    {
        match order_type {
            OrderType::Market => "Market",
            OrderType::Limit => "Limit",
            OrderType::StopLoss | OrderType::StopLimit => "Stop",
            OrderType::TakeProfit => "TakeProfit",
            OrderType::TrailingStop => "TrailingStop",
        }
    }

    /// Convert time in force to Bybit text (good-till-date is sent as GTC).
    pub fn tif_to_string(tif: TimeInForce) -> (s: &'static str)
        ensures
            s@ == spec_tif_text(tif),
    {
        match tif {
            TimeInForce::GTC => "GTC",
            TimeInForce::IOC => "IOC",
            TimeInForce::FOK => "FOK",
            TimeInForce::GTD(_) => "GTC",
        }
    }

    /// Parse order status from Bybit text; unknown text is `Pending`.
    pub fn parse_order_status(status: &str) -> (s: OrderStatus)
        ensures
            s == (if status@ == "New"@ { OrderStatus::Submitted }
            else if status@ == "PartiallyFilled"@ { OrderStatus::PartiallyFilled }
            else if status@ == "Filled"@ { OrderStatus::Filled }
            else if status@ == "Cancelled"@ { OrderStatus::Cancelled }
            else if status@ == "Rejected"@ { OrderStatus::Rejected }
            else if status@ == "Expired"@ { OrderStatus::Expired }
            else { OrderStatus::Pending }),
    {
        if str_eq(status, "New") { OrderStatus::Submitted }
        else if str_eq(status, "PartiallyFilled") { OrderStatus::PartiallyFilled }
        else if str_eq(status, "Filled") { OrderStatus::Filled }
        else if str_eq(status, "Cancelled") { OrderStatus::Cancelled }
        else if str_eq(status, "Rejected") { OrderStatus::Rejected }
        else if str_eq(status, "Expired") { OrderStatus::Expired }
        else { OrderStatus::Pending }
    }

    /// Marks the connector connected.
    pub fn mark_connected(&mut self)
        ensures
            final(self).status == ConnectionStatus::Connected,
            final(self).config == old(self).config,
    {
        self.status = ConnectionStatus::Connected;
    }

    /// Marks the connector disconnected.
    pub fn mark_disconnected(&mut self)
        ensures
            final(self).status == ConnectionStatus::Disconnected,
            final(self).config == old(self).config,
    {
        self.status = ConnectionStatus::Disconnected;
    }
}

/// Bybit names each interval it supports by its length in minutes, up to
/// twelve hours, and by `D`, `W` and `M` for a day, a week and a month; the
/// 8-hour and 3-day intervals, which it lacks, are sent as the one-hour
/// interval.
pub proof fn lemma_bybit_interval_text_is_minutes(i: Interval)
    ensures
        i.spec_minutes() < Interval::D1.spec_minutes() && i != Interval::H8
            ==> spec_bybit_interval_text(i) == spec_decimal(i.spec_minutes()),
        i == Interval::D1 ==> spec_bybit_interval_text(i) == "D"@,
        i == Interval::W1 ==> spec_bybit_interval_text(i) == "W"@,
        i == Interval::Mo1 ==> spec_bybit_interval_text(i) == "M"@,
        i == Interval::H8 || i == Interval::D3
            ==> spec_bybit_interval_text(i) == spec_bybit_interval_text(Interval::H1),
{
    reveal_strlit("1");
    reveal_strlit("3");
    reveal_strlit("5");
    reveal_strlit("15");
    reveal_strlit("30");
    reveal_strlit("60");
    reveal_strlit("120");
    reveal_strlit("240");
    reveal_strlit("360");
    reveal_strlit("720");
    reveal_with_fuel(spec_decimal, 4);
    assert(spec_decimal(1) =~= "1"@);
    assert(spec_decimal(3) =~= "3"@);
    assert(spec_decimal(5) =~= "5"@);
    assert(spec_decimal(15) =~= "15"@);
    assert(spec_decimal(30) =~= "30"@);
    assert(spec_decimal(60) =~= "60"@);
    assert(spec_decimal(120) =~= "120"@);
    assert(spec_decimal(240) =~= "240"@);
    assert(spec_decimal(360) =~= "360"@);
    assert(spec_decimal(720) =~= "720"@);
}

} // verus!
