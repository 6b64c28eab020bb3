//! Binance connector: configuration, endpoints, wire-format conversions and
//! signed query strings.  The network calls themselves live outside the
//! library; everything they are handed is computed here.
use vstd::prelude::*;
use crate::exchanges::{ApiCredentials, ConnectionStatus, RateLimiter, hmac_sha256, spec_signature};
use crate::live_types::{Interval, OrderStatus, OrderType, Side, TimeInForce};
use crate::text::{decimal_digits, spec_decimal, str_eq};
use vstd::string::StringSliceAdditionalSpecFns;

verus! {

/// Binance market type.
#[derive(Debug, Clone, Copy, PartialEq, Eq, Structural)]
pub enum BinanceMarketType {
    /// Spot trading.
    Spot,
    /// USD-M Futures.
    Futures,
    /// COIN-M Futures.
    CoinFutures,
}

impl Default for BinanceMarketType {
    fn default() -> (m: Self)
        ensures
            m == BinanceMarketType::Spot,
    {
        BinanceMarketType::Spot
    }
}

/// Binance connector configuration.
#[derive(Debug, Clone)]
pub struct BinanceConfig {
    /// API credentials.
    pub credentials: Option<ApiCredentials>,
    /// Market type.
    pub market_type: BinanceMarketType,
    /// Use testnet.
    pub testnet: bool,
    /// Request timeout in milliseconds.
    pub timeout_ms: u64,
    /// Receive window for signed requests.
    pub recv_window: u64,
    /// Enable WebSocket streams.
    pub enable_websocket: bool,
    /// WebSocket ping interval in seconds.
    pub ws_ping_interval: u64,
    /// Auto-reconnect on disconnect.
    pub auto_reconnect: bool,
    /// Maximum reconnection attempts.
    pub max_reconnect_attempts: u32,
}

impl BinanceConfig {
    /// The settings of a fresh configuration: spot, production, 5 s timeout
    /// and receive window, WebSocket on with a 30 s ping, auto-reconnect with
    /// at most 5 attempts, and no credentials.
    pub open spec fn is_default(self) -> bool {
        &&& self.credentials is None
        &&& self.market_type == BinanceMarketType::Spot
        &&& !self.testnet
        &&& self.timeout_ms == 5000
        &&& self.recv_window == 5000
        &&& self.enable_websocket
        &&& self.ws_ping_interval == 30
        &&& self.auto_reconnect
        &&& self.max_reconnect_attempts == 5
    }

    /// Everything but the credentials is the same.
    pub open spec fn same_settings(self, other: Self) -> bool {
        &&& self.market_type == other.market_type
        &&& self.testnet == other.testnet
        &&& self.timeout_ms == other.timeout_ms
        &&& self.recv_window == other.recv_window
        &&& self.enable_websocket == other.enable_websocket
        &&& self.ws_ping_interval == other.ws_ping_interval
        &&& self.auto_reconnect == other.auto_reconnect
        &&& self.max_reconnect_attempts == other.max_reconnect_attempts
    }

    /// Create new config.
    pub fn new() -> (c: Self)
        ensures
            c.is_default(),
    {
        Self::default()
    }

    /// Set API key, keeping the secret already set (or an empty one).
    pub fn api_key(self, key: &str) -> (c: Self)
        ensures
            c.same_settings(self),
            c.credentials matches Some(cr) && cr.api_key@ == key@ && cr.passphrase is None
                && cr.api_secret@ == (match self.credentials {
                    Some(old) => old.api_secret@,
                    None => Seq::<char>::empty(),
                }),
    {
        let secret = match &self.credentials {
            Some(c) => c.api_secret.clone(),
            None => String::new(),
        };
        BinanceConfig { credentials: Some(ApiCredentials::new(key, secret.as_str())), ..self }
    }

    /// Set API secret, keeping the key already set (or an empty one).
    pub fn api_secret(self, secret: &str) -> (c: Self)
        ensures
            c.same_settings(self),
            c.credentials matches Some(cr) && cr.api_secret@ == secret@ && cr.passphrase is None
                && cr.api_key@ == (match self.credentials {
                    Some(old) => old.api_key@,
                    None => Seq::<char>::empty(),
                }),
    {
        let key = match &self.credentials {
            Some(c) => c.api_key.clone(),
            None => String::new(),
        };
        BinanceConfig { credentials: Some(ApiCredentials::new(key.as_str(), secret)), ..self }
    }

    /// Set market type.
    pub fn market_type(self, market_type: BinanceMarketType) -> (c: Self)
        ensures
            c == (BinanceConfig { market_type, ..self }),
    {
        BinanceConfig { market_type, ..self }
    }

    /// Enable testnet.
    pub fn testnet(self, enabled: bool) -> (c: Self)
        ensures
            c == (BinanceConfig { testnet: enabled, ..self }),
    {
        BinanceConfig { testnet: enabled, ..self }
    }

    /// Set request timeout.
    pub fn timeout_ms(self, ms: u64) -> (c: Self)
        ensures
            c == (BinanceConfig { timeout_ms: ms, ..self }),
    {
        BinanceConfig { timeout_ms: ms, ..self }
    }

    /// Set receive window.
    pub fn recv_window(self, ms: u64) -> (c: Self)
        ensures
            c == (BinanceConfig { recv_window: ms, ..self }),
    {
        BinanceConfig { recv_window: ms, ..self }
    }

    /// Enable WebSocket.
    pub fn enable_websocket(self, enabled: bool) -> (c: Self)
        ensures
            c == (BinanceConfig { enable_websocket: enabled, ..self }),
    {
        BinanceConfig { enable_websocket: enabled, ..self }
    }

    /// Set auto-reconnect.
    pub fn auto_reconnect(self, enabled: bool) -> (c: Self)
        ensures
            c == (BinanceConfig { auto_reconnect: enabled, ..self }),
    {
        BinanceConfig { auto_reconnect: enabled, ..self }
    }
}

impl Default for BinanceConfig {
    fn default() -> (c: Self)
        ensures
            c.is_default(),
    {
        Self {
            credentials: None,
            market_type: BinanceMarketType::Spot,
            testnet: false,
            timeout_ms: 5000,
            recv_window: 5000,
            enable_websocket: true,
            ws_ping_interval: 30,
            auto_reconnect: true,
            max_reconnect_attempts: 5,
        }
    }
}

/// The REST base URL of a market.
pub open spec fn spec_binance_rest_url(market: BinanceMarketType, testnet: bool) -> Seq<char> {
    match (market, testnet) {
        (BinanceMarketType::Spot, false) => "https://api.binance.com"@,
        (BinanceMarketType::Spot, true) => "https://testnet.binance.vision"@,
        (BinanceMarketType::Futures, false) => "https://fapi.binance.com"@,
        (BinanceMarketType::Futures, true) => "https://testnet.binancefuture.com"@,
        (BinanceMarketType::CoinFutures, false) => "https://dapi.binance.com"@,
        (BinanceMarketType::CoinFutures, true) => "https://testnet.binancefuture.com"@,
    }
}

/// The WebSocket base URL of a market.
pub open spec fn spec_binance_ws_url(market: BinanceMarketType, testnet: bool) -> Seq<char> {
    match (market, testnet) {
        (BinanceMarketType::Spot, false) => "wss://stream.binance.com:9443"@,
        (BinanceMarketType::Spot, true) => "wss://testnet.binance.vision"@,
        (BinanceMarketType::Futures, false) => "wss://fstream.binance.com"@,
        (BinanceMarketType::Futures, true) => "wss://stream.binancefuture.com"@,
        (BinanceMarketType::CoinFutures, false) => "wss://dstream.binance.com"@,
        (BinanceMarketType::CoinFutures, true) => "wss://dstream.binancefuture.com"@,
    }
}

/// `key=value` pairs joined with `&`.
pub open spec fn spec_join_params(ps: Seq<(Seq<char>, Seq<char>)>) -> Seq<char>
    decreases ps.len(),
{
    if ps.len() == 0 {
        Seq::empty()
    } else if ps.len() == 1 {
        ps[0].0 + seq!['='] + ps[0].1
    } else {
        spec_join_params(ps.drop_last()) + seq!['&'] + ps.last().0 + seq!['='] + ps.last().1
    }
}

/// The query before its signature: the parameters, then the timestamp and
/// the receive window.
pub open spec fn spec_unsigned_query(
    ps: Seq<(Seq<char>, Seq<char>)>,
    timestamp: u64,
    recv_window: u64,
) -> Seq<char> {
    let joined = spec_join_params(ps);
    (if joined.len() == 0 { joined } else { joined + seq!['&'] }) + "timestamp="@
        + spec_decimal(timestamp as nat) + "&recvWindow="@ + spec_decimal(recv_window as nat)
}

/// Views of string pairs.
pub open spec fn spec_param_views(ps: Seq<(&str, &str)>) -> Seq<(Seq<char>, Seq<char>)> {
    ps.map_values(|p: (&str, &str)| (p.0@, p.1@))
}

/// Binance wire text of an order type.
pub open spec fn spec_binance_type_text(order_type: OrderType) -> Seq<char> {
    match order_type {
        OrderType::Market => "MARKET"@,
        OrderType::Limit => "LIMIT"@,
        OrderType::StopLoss => "STOP_LOSS"@,
        OrderType::StopLimit => "STOP_LOSS_LIMIT"@,
        OrderType::TakeProfit => "TAKE_PROFIT"@,
        OrderType::TrailingStop => "TRAILING_STOP_MARKET"@,
    }
}

/// Wire text of a time in force (good-till-date is sent as GTC), the same
/// on both exchanges.
pub open spec fn spec_tif_text(tif: TimeInForce) -> Seq<char> {
    match tif {
        TimeInForce::IOC => "IOC"@,
        TimeInForce::FOK => "FOK"@,
        _ => "GTC"@,
    }
}

/// Binance exchange connector state that needs no network: configuration,
/// connection status, request budget and user-stream listen key.
#[derive(Debug)]
pub struct BinanceConnector {
    /// Configuration.
    pub config: BinanceConfig,
    /// Connection status.
    pub status: ConnectionStatus,
    /// Rate limiter.
    pub rate_limiter: RateLimiter,
    /// Listen key for user data stream.
    pub listen_key: Option<String>,
}

impl BinanceConnector {
    /// Create a new Binance connector: disconnected, 1200 weight and 100
    /// orders per 60 s window.
    pub fn new(config: BinanceConfig) -> (c: Self)
        ensures
            c.config == config,
            c.status == ConnectionStatus::Disconnected,
            c.listen_key is None,
            c.rate_limiter.spec_weight_limit() == 1200,
            c.rate_limiter.spec_order_limit() == 100,
            c.rate_limiter.spec_current_weight() == 0,
            c.rate_limiter.spec_order_count() == 0,
            c.rate_limiter.spec_reset_nanos() == 60_000_000_000,
    {
        BinanceConnector {
            config,
            status: ConnectionStatus::Disconnected,
            rate_limiter: RateLimiter::new(1200, 100, 60),
            listen_key: None,
        }
    }

    /// Exchange name for the configured market.
    pub fn name(&self) -> (s: &'static str)
        ensures
            s@ == (match self.config.market_type {
                BinanceMarketType::Spot => "Binance Spot"@,
                BinanceMarketType::Futures => "Binance USD-M Futures"@,
                BinanceMarketType::CoinFutures => "Binance COIN-M Futures"@,
            }),
    {
        match self.config.market_type {
            BinanceMarketType::Spot => "Binance Spot",
            BinanceMarketType::Futures => "Binance USD-M Futures",
            BinanceMarketType::CoinFutures => "Binance COIN-M Futures",
        }
    }

    /// Get the REST API base URL.
    pub fn rest_base_url(&self) -> (s: &'static str)
        ensures
            s@ == spec_binance_rest_url(self.config.market_type, self.config.testnet),
    {
        match (self.config.market_type, self.config.testnet) {
            (BinanceMarketType::Spot, false) => "https://api.binance.com",
            (BinanceMarketType::Spot, true) => "https://testnet.binance.vision",
            (BinanceMarketType::Futures, false) => "https://fapi.binance.com",
            (BinanceMarketType::Futures, true) => "https://testnet.binancefuture.com",
            (BinanceMarketType::CoinFutures, false) => "https://dapi.binance.com",
            (BinanceMarketType::CoinFutures, true) => "https://testnet.binancefuture.com",
        }
    }

    /// Get the WebSocket base URL.
    pub fn ws_base_url(&self) -> (s: &'static str)
        ensures
            s@ == spec_binance_ws_url(self.config.market_type, self.config.testnet),
    {
        match (self.config.market_type, self.config.testnet) {
            (BinanceMarketType::Spot, false) => "wss://stream.binance.com:9443",
            (BinanceMarketType::Spot, true) => "wss://testnet.binance.vision",
            (BinanceMarketType::Futures, false) => "wss://fstream.binance.com",
            (BinanceMarketType::Futures, true) => "wss://stream.binancefuture.com",
            (BinanceMarketType::CoinFutures, false) => "wss://dstream.binance.com",
            (BinanceMarketType::CoinFutures, true) => "wss://dstream.binancefuture.com",
        }
    }

    /// Sign a request with the configured secret; `None` when no credentials
    /// are configured.
    pub fn sign_request(&self, params: &str) -> (r: Option<String>)
        ensures
            self.config.credentials is None ==> r is None,
            self.config.credentials matches Some(cr) ==> (r matches Some(sig)
                && sig@ == spec_signature(vstd::utf8::encode_utf8(cr.api_secret@), vstd::utf8::encode_utf8(params@))),
    {
        match &self.config.credentials {
            Some(cr) => Some(hmac_sha256(cr.api_secret.as_str(), params)),
            None => None,
        }
    }

    /// Build the signed query string for `params` at `timestamp`:
    /// `k=v&...&timestamp=T&recvWindow=W&signature=S`.  `None` when no
    /// credentials are configured.
    pub fn build_signed_query_at(&self, params: &[(&str, &str)], timestamp: u64) -> (r: Option<String>)
        ensures
            self.config.credentials is None ==> r is None,
            self.config.credentials matches Some(cr) ==> (r matches Some(q) && {
                let base = spec_unsigned_query(spec_param_views(params@), timestamp, self.config.recv_window);
                q@ == base + "&signature="@ + spec_signature(
                    vstd::utf8::encode_utf8(cr.api_secret@),
                    vstd::utf8::encode_utf8(base),
                )
            }),
    {
        let mut query = String::new();
        let mut i: usize = 0;
        while i < params.len()
            invariant
                i <= params.len(),
                query@ == spec_join_params(spec_param_views(params@).take(i as int)),
            decreases params.len() - i,
        {
            let ghost prev = spec_param_views(params@).take(i as int);
            if i > 0 {
                query.append("&");
            }
            query.append(params[i].0);
            query.append("=");
            query.append(params[i].1);
            proof {
                reveal_strlit("&");
                reveal_strlit("=");
                let next = spec_param_views(params@).take(i + 1);
                assert(next.drop_last() =~= prev);
                assert(next.last() == (params@[i as int].0@, params@[i as int].1@));
                if i == 0 {
                    assert(prev.len() == 0);
                }
            }
            i = i + 1;
        }
        assert(spec_param_views(params@).take(params.len() as int) =~= spec_param_views(params@));
        if query.as_str().unicode_len() > 0 {
            query.append("&");
        }
        query.append("timestamp=");
        let ts = decimal_digits(timestamp as u128);
        query.append(ts.as_str());
        query.append("&recvWindow=");
        let rw = decimal_digits(self.config.recv_window as u128);
        query.append(rw.as_str());
        proof {
            reveal_strlit("&");
        }
        assert(query@ =~= spec_unsigned_query(spec_param_views(params@), timestamp, self.config.recv_window));
        let signature = self.sign_request(query.as_str());
        match signature {
            Some(sig) => {
                query.append("&signature=");
                query.append(sig.as_str());
                Some(query)
            },
            None => None,
        }
    }

    /// Build the signed query string for `params` at the current time: the
    /// signed query of `build_signed_query_at` for the clock's millisecond
    /// timestamp.
    pub fn build_signed_query(&self, params: &[(&str, &str)]) -> (r: Option<String>)
        ensures
            self.config.credentials is None <==> r is None,
            self.config.credentials matches Some(cr) ==> (r matches Some(q) && exists|timestamp: u64| #![trigger spec_unsigned_query(spec_param_views(params@), timestamp, self.config.recv_window)] {
                let base = spec_unsigned_query(spec_param_views(params@), timestamp, self.config.recv_window);
                q@ == base + "&signature="@ + spec_signature(
                    vstd::utf8::encode_utf8(cr.api_secret@),
                    vstd::utf8::encode_utf8(base),
                )
            }),
    {
        let ts = crate::clock::current_timestamp_ms();
        self.build_signed_query_at(params, ts)
    }

    /// Parse order status from Binance text; unknown text is `Pending`.
    pub fn parse_order_status(status: &str) -> (s: OrderStatus)
        ensures
            s == (if status@ == "NEW"@ { OrderStatus::Submitted }
            else if status@ == "PARTIALLY_FILLED"@ { OrderStatus::PartiallyFilled }
            else if status@ == "FILLED"@ { OrderStatus::Filled }
            else if status@ == "CANCELED"@ { OrderStatus::Cancelled }
            else if status@ == "REJECTED"@ { OrderStatus::Rejected }
            else if status@ == "EXPIRED"@ { OrderStatus::Expired }
            else { OrderStatus::Pending }),
    {
        if str_eq(status, "NEW") { OrderStatus::Submitted }
        else if str_eq(status, "PARTIALLY_FILLED") { OrderStatus::PartiallyFilled }
        else if str_eq(status, "FILLED") { OrderStatus::Filled }
        else if str_eq(status, "CANCELED") { OrderStatus::Cancelled }
        else if str_eq(status, "REJECTED") { OrderStatus::Rejected }
        else if str_eq(status, "EXPIRED") { OrderStatus::Expired }
        else { OrderStatus::Pending }
    }

    /// Parse order type from Binance text; unknown text is `Limit`.
    pub fn parse_order_type(order_type: &str) -> (t: OrderType)
        ensures
            t == (if order_type@ == "MARKET"@ { OrderType::Market }
            else if order_type@ == "LIMIT"@ { OrderType::Limit }
            else if order_type@ == "STOP_LOSS"@ || order_type@ == "STOP"@ { OrderType::StopLoss }
            else if order_type@ == "STOP_LOSS_LIMIT"@ || order_type@ == "STOP_MARKET"@ { OrderType::StopLimit }
            else if order_type@ == "TAKE_PROFIT"@ { OrderType::TakeProfit }
            else if order_type@ == "TRAILING_STOP_MARKET"@ { OrderType::TrailingStop }
            else { OrderType::Limit }),
    {
        if str_eq(order_type, "MARKET") { OrderType::Market }
        else if str_eq(order_type, "LIMIT") { OrderType::Limit }
        else if str_eq(order_type, "STOP_LOSS") || str_eq(order_type, "STOP") { OrderType::StopLoss }
        else if str_eq(order_type, "STOP_LOSS_LIMIT") || str_eq(order_type, "STOP_MARKET") { OrderType::StopLimit }
        else if str_eq(order_type, "TAKE_PROFIT") { OrderType::TakeProfit }
        else if str_eq(order_type, "TRAILING_STOP_MARKET") { OrderType::TrailingStop }
        else { OrderType::Limit }
    }

    /// Parse side from Binance text; unknown text is `Buy`.
    pub fn parse_side(side: &str) -> (s: Side)
        ensures
            s == (if side@ == "SELL"@ { Side::Sell } else { Side::Buy }),
    {
        proof {
            reveal_strlit("BUY");
            reveal_strlit("SELL");
            assert("BUY"@.len() != "SELL"@.len());
        }
        if str_eq(side, "BUY") { Side::Buy }
        else if str_eq(side, "SELL") { Side::Sell }
        else { Side::Buy }
    }

    /// Convert interval to Binance text (the interval's display text).
    pub fn interval_to_string(interval: Interval) -> (s: &'static str)
        ensures
            s@ == interval.spec_label(),
    {
        interval.as_str()
    }

    /// Convert order type to Binance text.
    pub fn order_type_to_string(order_type: OrderType) -> (s: &'static str)
        ensures
            s@ == spec_binance_type_text(order_type),
    {
        match order_type {
            OrderType::Market => "MARKET",
            OrderType::Limit => "LIMIT",
            OrderType::StopLoss => "STOP_LOSS",
            OrderType::StopLimit => "STOP_LOSS_LIMIT",
            OrderType::TakeProfit => "TAKE_PROFIT",
            OrderType::TrailingStop => "TRAILING_STOP_MARKET",
        }
    }

    /// Convert time in force to Binance text (good-till-date is sent as GTC).
    pub fn tif_to_string(tif: TimeInForce) -> (s: &'static str)
        ensures
            s@ == spec_tif_text(tif),
    {
        match tif {
            TimeInForce::GTC => "GTC",
            TimeInForce::IOC => "IOC",
            TimeInForce::FOK => "FOK",
            TimeInForce::GTD(_) => "GTC",
        }
    }

    /// Marks the connector connected.
    pub fn mark_connected(&mut self)
        ensures
            final(self).status == ConnectionStatus::Connected,
            final(self).config == old(self).config,
            final(self).listen_key == old(self).listen_key,
    {
        self.status = ConnectionStatus::Connected;
    }

    /// Marks the connector disconnected and forgets the listen key.
    pub fn mark_disconnected(&mut self)
        ensures
            final(self).status == ConnectionStatus::Disconnected,
            final(self).listen_key is None,
            final(self).config == old(self).config,
    {
        self.status = ConnectionStatus::Disconnected;
        self.listen_key = None;
    }
}

} // verus!
