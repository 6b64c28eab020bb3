//! The REST requests and stream addresses of the exchange connectors:
//! for each operation, the method, path, whether it is signed, and its
//! parameters (Bybit sends the parameters of its POST requests as a JSON
//! object of text fields).  Sending them is left to the caller.
use vstd::prelude::*;
use crate::binance::{spec_binance_type_text, spec_binance_ws_url, spec_tif_text, BinanceConnector, BinanceMarketType};
use crate::bybit::{spec_bybit_interval_text, spec_bybit_type_text, BybitAccountType, BybitConnector};
use crate::exchanges::{RateLimit, RateLimitType};
use crate::live_types::{Interval, OrderType, Side, TimeInForce};
use crate::precision::{lowercase, spec_lowercase};
use crate::text::{decimal_digits, spec_decimal};

verus! {

/// HTTP method of a request.
#[derive(Debug, Clone, Copy, PartialEq, Eq, Structural)]
pub enum HttpMethod {
    /// GET.
    Get,
    /// POST.
    Post,
    /// DELETE.
    Delete,
}

/// A REST request of an exchange connector.
#[derive(Debug, Clone)]
pub struct ApiRequest {
    /// HTTP method.
    pub method: HttpMethod,
    /// Whether the request carries the account signature.
    pub signed: bool,
    /// Path below the REST base address.
    pub path: String,
    /// Parameters (query parameters, or JSON fields of a Bybit POST), in order.
    pub params: Vec<(String, String)>,
}

/// The parameters as texts.
pub open spec fn spec_params(ps: Seq<(String, String)>) -> Seq<(Seq<char>, Seq<char>)> {
    ps.map_values(|p: (String, String)| (p.0@, p.1@))
}

/// `[(key, decimal(v))]` when `v` is present, nothing otherwise.
pub open spec fn spec_opt_param(key: Seq<char>, v: Option<nat>) -> Seq<(Seq<char>, Seq<char>)> {
    match v {
        Some(x) => seq![(key, spec_decimal(x))],
        None => Seq::empty(),
    }
}

/// The optional time window and limit of a history query.
pub open spec fn spec_window(start_key: Seq<char>, end_key: Seq<char>, start: Option<u64>, end: Option<u64>, limit: Option<usize>) -> Seq<(Seq<char>, Seq<char>)> {
    spec_opt_param(start_key, match start { Some(x) => Some(x as nat), None => None })
        + spec_opt_param(end_key, match end { Some(x) => Some(x as nat), None => None })
        + spec_opt_param("limit"@, match limit { Some(x) => Some(x as nat), None => None })
}

/// A request made of its parts.
pub open spec fn spec_request(req: ApiRequest, method: HttpMethod, signed: bool, path: Seq<char>, params: Seq<(Seq<char>, Seq<char>)>) -> bool {
    &&& req.method == method
    &&& req.signed == signed
    &&& req.path@ == path
    &&& spec_params(req.params@) == params
}

fn push_param(ps: &mut Vec<(String, String)>, key: &str, value: &str)
    ensures
        spec_params(final(ps)@) == spec_params(old(ps)@).push((key@, value@)),
{
    ps.push((String::from_str(key), String::from_str(value)));
    assert(spec_params(ps@) =~= spec_params(old(ps)@).push((key@, value@)));
}

fn push_number(ps: &mut Vec<(String, String)>, key: &str, value: Option<u128>)
    ensures
        spec_params(final(ps)@) == spec_params(old(ps)@) + spec_opt_param(
            key@,
            match value { Some(x) => Some(x as nat), None => None },
        ),
{
    match value {
        Some(x) => {
            let d = decimal_digits(x);
            push_param(ps, key, d.as_str());
        },
        None => {
            assert(spec_params(ps@) =~= spec_params(ps@) + Seq::<(Seq<char>, Seq<char>)>::empty());
        },
    }
}

fn widen_u64(v: Option<u64>) -> (r: Option<u128>)
    ensures
        r == match v { Some(x) => Some(x as u128), None => None::<u128> },
{
    match v {
        Some(x) => Some(x as u128),
        None => None,
    }
}

fn widen_usize(v: Option<usize>) -> (r: Option<u128>)
    ensures
        r == match v { Some(x) => Some(x as u128), None => None::<u128> },
{
    match v {
        Some(x) => Some(x as u128),
        None => None,
    }
}

fn request(method: HttpMethod, signed: bool, path: &str, params: Vec<(String, String)>) -> (r: ApiRequest)
    ensures
        r.method == method,
        r.signed == signed,
        r.path@ == path@,
        r.params@ == params@,
{
    ApiRequest { method, signed, path: String::from_str(path), params }
}

/// Spot path or futures path.
pub open spec fn spec_market_path(market: BinanceMarketType, spot: Seq<char>, futures: Seq<char>) -> Seq<char> {
    if market == BinanceMarketType::Spot { spot } else { futures }
}

fn market_path(market: BinanceMarketType, spot: &'static str, futures: &'static str) -> (s: &'static str)
    ensures
        s@ == spec_market_path(market, spot@, futures@),
        market == BinanceMarketType::Spot ==> s == spot,
        market != BinanceMarketType::Spot ==> s == futures,
{
    if market == BinanceMarketType::Spot { spot } else { futures }
}

/// Only the spot market uses the spot endpoints: USD-M and COIN-M futures
/// both use the futures endpoints, for every request.
pub proof fn lemma_futures_markets_use_futures_paths(spot: Seq<char>, futures: Seq<char>)
    ensures
        spec_market_path(BinanceMarketType::Spot, spot, futures) == spot,
        spec_market_path(BinanceMarketType::Futures, spot, futures) == futures,
        spec_market_path(BinanceMarketType::CoinFutures, spot, futures) == futures,
        forall|m: BinanceMarketType| m != BinanceMarketType::Spot
            ==> #[trigger] spec_market_path(m, spot, futures) == futures,
{
}

/// Wire text of a side on Binance.
pub open spec fn spec_binance_side(side: Side) -> Seq<char> {
    match side {
        Side::Buy => "BUY"@,
        Side::Sell => "SELL"@,
    }
}

/// Wire text of a side on Bybit.
pub open spec fn spec_bybit_side(side: Side) -> Seq<char> {
    match side {
        Side::Buy => "Buy"@,
        Side::Sell => "Sell"@,
    }
}

/// Joins `names` with `/`.
pub open spec fn spec_join_slash(names: Seq<Seq<char>>) -> Seq<char>
    decreases names.len(),
{
    if names.len() == 0 {
        Seq::empty()
    } else if names.len() == 1 {
        names[0]
    } else {
        spec_join_slash(names.drop_last()) + "/"@ + names.last()
    }
}

/// The Binance stream address for `symbols`, each lower-cased and followed
/// by `suffix`.
pub open spec fn spec_binance_stream_url(base: Seq<char>, symbols: Seq<Seq<char>>, suffix: Seq<char>) -> Seq<char> {
    base + "/stream?streams="@ + spec_join_slash(symbols.map_values(|s: Seq<char>| spec_lowercase(s) + suffix))
}

/// The Binance stream address for already lower-cased symbol names, each
/// followed by `suffix`.
pub open spec fn spec_stream_url_of_lowered(base: Seq<char>, lowered: Seq<Seq<char>>, suffix: Seq<char>) -> Seq<char> {
    base + "/stream?streams="@ + spec_join_slash(lowered.map_values(|s: Seq<char>| s + suffix))
}

impl BinanceConnector {
    /// `GET /api/v3/ping` (the same path for every market).
    pub fn ping_request(&self) -> (r: ApiRequest)
        ensures
            spec_request(r, HttpMethod::Get, false, "/api/v3/ping"@, Seq::empty()),
    {
        let r = request(HttpMethod::Get, false, "/api/v3/ping", Vec::new());
        assert(spec_params(r.params@) =~= Seq::empty());
        r
    }

    /// Exchange information.
    pub fn exchange_info_request(&self) -> (r: ApiRequest)
        ensures
            spec_request(r, HttpMethod::Get, false, spec_market_path(self.config.market_type, "/api/v3/exchangeInfo"@, "/fapi/v1/exchangeInfo"@), Seq::empty()),
    {
        let r = request(HttpMethod::Get, false, market_path(self.config.market_type, "/api/v3/exchangeInfo", "/fapi/v1/exchangeInfo"), Vec::new());
        assert(spec_params(r.params@) =~= Seq::empty());
        r
    }

    /// Server time: `GET /api/v3/time`.
    pub fn server_time_request(&self) -> (r: ApiRequest)
        ensures
            spec_request(r, HttpMethod::Get, false, "/api/v3/time"@, Seq::empty()),
    {
        let r = request(HttpMethod::Get, false, "/api/v3/time", Vec::new());
        assert(spec_params(r.params@) =~= Seq::empty());
        r
    }

    /// The rate limits Binance announces: 1200 request weight and 100 orders
    /// per 60 s.
    pub fn default_rate_limits(&self) -> (v: Vec<RateLimit>)
        ensures
            v@ == seq![
                RateLimit { limit_type: RateLimitType::RequestWeight, interval_seconds: 60, limit: 1200 },
                RateLimit { limit_type: RateLimitType::Orders, interval_seconds: 60, limit: 100 },
            ],
    {
        let mut v = Vec::new();
        v.push(RateLimit { limit_type: RateLimitType::RequestWeight, interval_seconds: 60, limit: 1200 });
        v.push(RateLimit { limit_type: RateLimitType::Orders, interval_seconds: 60, limit: 100 });
        v
    }

    /// Account balances (signed).
    pub fn balances_request(&self) -> (r: ApiRequest)
        ensures
            spec_request(r, HttpMethod::Get, true, spec_market_path(self.config.market_type, "/api/v3/account"@, "/fapi/v2/account"@), Seq::empty()),
    {
        let r = request(HttpMethod::Get, true, market_path(self.config.market_type, "/api/v3/account", "/fapi/v2/account"), Vec::new());
        assert(spec_params(r.params@) =~= Seq::empty());
        r
    }

    /// Open positions (signed); spot markets have none, and `None` comes back.
    pub fn positions_request(&self) -> (r: Option<ApiRequest>)
        ensures
            self.config.market_type == BinanceMarketType::Spot <==> r is None,
            r matches Some(q) ==> spec_request(q, HttpMethod::Get, true, "/fapi/v2/positionRisk"@, Seq::empty()),
    {
        if self.config.market_type == BinanceMarketType::Spot {
            return None;
        }
        let r = request(HttpMethod::Get, true, "/fapi/v2/positionRisk", Vec::new());
        assert(spec_params(r.params@) =~= Seq::empty());
        Some(r)
    }

    /// A new order (signed): symbol, side, type and quantity; a price brings
    /// the time in force along; a stop price is sent when there is one.
    /// Quantities and prices are handed over as their decimal texts.
    pub fn place_order_request(
        &self,
        symbol: &str,
        side: Side,
        order_type: OrderType,
        time_in_force: TimeInForce,
        quantity: &str,
        price: Option<&str>,
        stop_price: Option<&str>,
    ) -> (r: ApiRequest)
        ensures
            spec_request(
                r,
                HttpMethod::Post,
                true,
                spec_market_path(self.config.market_type, "/api/v3/order"@, "/fapi/v1/order"@),
                seq![("symbol"@, symbol@), ("side"@, spec_binance_side(side)), ("type"@, spec_binance_type_text(order_type)), ("quantity"@, quantity@)]
                    + (match price { Some(p) => seq![("price"@, p@), ("timeInForce"@, spec_tif_text(time_in_force))], None => Seq::empty() })
                    + (match stop_price { Some(p) => seq![("stopPrice"@, p@)], None => Seq::empty() }),
            ),
    {
        let mut ps: Vec<(String, String)> = Vec::new();
        push_param(&mut ps, "symbol", symbol);
        let side_text = match side { Side::Buy => "BUY", Side::Sell => "SELL" };
        push_param(&mut ps, "side", side_text);
        push_param(&mut ps, "type", BinanceConnector::order_type_to_string(order_type));
        push_param(&mut ps, "quantity", quantity);
        let ghost base = spec_params(ps@);
        match price {
            Some(p) => {
                push_param(&mut ps, "price", p);
                push_param(&mut ps, "timeInForce", BinanceConnector::tif_to_string(time_in_force));
            },
            None => {},
        }
        let ghost with_price = spec_params(ps@);
        match stop_price {
            Some(p) => {
                push_param(&mut ps, "stopPrice", p);
            },
            None => {},
        }
        let r = request(HttpMethod::Post, true, market_path(self.config.market_type, "/api/v3/order", "/fapi/v1/order"), ps);
        assert(spec_params(r.params@) =~= seq![("symbol"@, symbol@), ("side"@, spec_binance_side(side)), ("type"@, spec_binance_type_text(order_type)), ("quantity"@, quantity@)]
            + (match price { Some(p) => seq![("price"@, p@), ("timeInForce"@, spec_tif_text(time_in_force))], None => Seq::empty() })
            + (match stop_price { Some(p) => seq![("stopPrice"@, p@)], None => Seq::empty() }));
        r
    }

    /// Cancels an order by client order id (signed).
    pub fn cancel_order_request(&self, symbol: &str, order_id: &str) -> (r: ApiRequest)
        ensures
            spec_request(r, HttpMethod::Delete, true, spec_market_path(self.config.market_type, "/api/v3/order"@, "/fapi/v1/order"@),
                seq![("symbol"@, symbol@), ("origClientOrderId"@, order_id@)]),
    {
        let mut ps: Vec<(String, String)> = Vec::new();
        push_param(&mut ps, "symbol", symbol);
        push_param(&mut ps, "origClientOrderId", order_id);
        let r = request(HttpMethod::Delete, true, market_path(self.config.market_type, "/api/v3/order", "/fapi/v1/order"), ps);
        assert(spec_params(r.params@) =~= seq![("symbol"@, symbol@), ("origClientOrderId"@, order_id@)]);
        r
    }

    /// Cancels every open order of a symbol (signed).
    pub fn cancel_all_orders_request(&self, symbol: &str) -> (r: ApiRequest)
        ensures
            spec_request(r, HttpMethod::Delete, true, spec_market_path(self.config.market_type, "/api/v3/openOrders"@, "/fapi/v1/allOpenOrders"@),
                seq![("symbol"@, symbol@)]),
    {
        let mut ps: Vec<(String, String)> = Vec::new();
        push_param(&mut ps, "symbol", symbol);
        let r = request(HttpMethod::Delete, true, market_path(self.config.market_type, "/api/v3/openOrders", "/fapi/v1/allOpenOrders"), ps);
        assert(spec_params(r.params@) =~= seq![("symbol"@, symbol@)]);
        r
    }

    /// Looks an order up by client order id (signed).
    pub fn get_order_request(&self, symbol: &str, order_id: &str) -> (r: ApiRequest)
        ensures
            spec_request(r, HttpMethod::Get, true, spec_market_path(self.config.market_type, "/api/v3/order"@, "/fapi/v1/order"@),
                seq![("symbol"@, symbol@), ("origClientOrderId"@, order_id@)]),
    {
        let mut ps: Vec<(String, String)> = Vec::new();
        push_param(&mut ps, "symbol", symbol);
        push_param(&mut ps, "origClientOrderId", order_id);
        let r = request(HttpMethod::Get, true, market_path(self.config.market_type, "/api/v3/order", "/fapi/v1/order"), ps);
        assert(spec_params(r.params@) =~= seq![("symbol"@, symbol@), ("origClientOrderId"@, order_id@)]);
        r
    }

    /// Open orders, of one symbol or of all (signed).
    pub fn open_orders_request(&self, symbol: Option<&str>) -> (r: ApiRequest)
        ensures
            spec_request(r, HttpMethod::Get, true, spec_market_path(self.config.market_type, "/api/v3/openOrders"@, "/fapi/v1/openOrders"@),
                match symbol { Some(s) => seq![("symbol"@, s@)], None => Seq::empty() }),
    {
        let mut ps: Vec<(String, String)> = Vec::new();
        match symbol {
            Some(s) => push_param(&mut ps, "symbol", s),
            None => {},
        }
        let r = request(HttpMethod::Get, true, market_path(self.config.market_type, "/api/v3/openOrders", "/fapi/v1/openOrders"), ps);
        assert(spec_params(r.params@) =~= match symbol { Some(s) => seq![("symbol"@, s@)], None => Seq::empty() });
        r
    }

    fn history_params(symbol: &str, start_time: Option<u64>, end_time: Option<u64>, limit: Option<usize>) -> (ps: Vec<(String, String)>)
        ensures
            spec_params(ps@) == seq![("symbol"@, symbol@)] + spec_window("startTime"@, "endTime"@, start_time, end_time, limit),
    {
        let mut ps: Vec<(String, String)> = Vec::new();
        push_param(&mut ps, "symbol", symbol);
        push_number(&mut ps, "startTime", widen_u64(start_time));
        push_number(&mut ps, "endTime", widen_u64(end_time));
        push_number(&mut ps, "limit", widen_usize(limit));
        assert(spec_params(ps@) =~= seq![("symbol"@, symbol@)] + spec_window("startTime"@, "endTime"@, start_time, end_time, limit));
        ps
    }

    /// Order history of a symbol, with optional time window and limit (signed).
    pub fn order_history_request(&self, symbol: &str, start_time: Option<u64>, end_time: Option<u64>, limit: Option<usize>) -> (r: ApiRequest)
        ensures
            spec_request(r, HttpMethod::Get, true, spec_market_path(self.config.market_type, "/api/v3/allOrders"@, "/fapi/v1/allOrders"@),
                seq![("symbol"@, symbol@)] + spec_window("startTime"@, "endTime"@, start_time, end_time, limit)),
    {
        let ps = Self::history_params(symbol, start_time, end_time, limit);
        request(HttpMethod::Get, true, market_path(self.config.market_type, "/api/v3/allOrders", "/fapi/v1/allOrders"), ps)
    }

    /// Trade history of a symbol, with optional time window and limit (signed).
    pub fn trade_history_request(&self, symbol: &str, start_time: Option<u64>, end_time: Option<u64>, limit: Option<usize>) -> (r: ApiRequest)
        ensures
            spec_request(r, HttpMethod::Get, true, spec_market_path(self.config.market_type, "/api/v3/myTrades"@, "/fapi/v1/userTrades"@),
                seq![("symbol"@, symbol@)] + spec_window("startTime"@, "endTime"@, start_time, end_time, limit)),
    {
        let ps = Self::history_params(symbol, start_time, end_time, limit);
        request(HttpMethod::Get, true, market_path(self.config.market_type, "/api/v3/myTrades", "/fapi/v1/userTrades"), ps)
    }

    /// Order book of a symbol, `depth` levels (100 by default).
    pub fn order_book_request(&self, symbol: &str, depth: Option<usize>) -> (r: ApiRequest)
        ensures
            spec_request(r, HttpMethod::Get, false, spec_market_path(self.config.market_type, "/api/v3/depth"@, "/fapi/v1/depth"@),
                seq![("symbol"@, symbol@), ("limit"@, spec_decimal(match depth { Some(d) => d as nat, None => 100nat }))]),
    {
        let d = match depth { Some(d) => d, None => 100 };
        assert(d as nat == match depth { Some(x) => x as nat, None => 100nat });
        let mut ps: Vec<(String, String)> = Vec::new();
        push_param(&mut ps, "symbol", symbol);
        let t = decimal_digits(d as u128);
        push_param(&mut ps, "limit", t.as_str());
        let r = request(HttpMethod::Get, false, market_path(self.config.market_type, "/api/v3/depth", "/fapi/v1/depth"), ps);
        assert(spec_params(r.params@) =~= seq![("symbol"@, symbol@), ("limit"@, spec_decimal(match depth { Some(x) => x as nat, None => 100nat }))]);
        r
    }

    /// Recent trades of a symbol, `limit` of them (100 by default).
    pub fn recent_trades_request(&self, symbol: &str, limit: Option<usize>) -> (r: ApiRequest)
        ensures
            spec_request(r, HttpMethod::Get, false, spec_market_path(self.config.market_type, "/api/v3/trades"@, "/fapi/v1/trades"@),
                seq![("symbol"@, symbol@), ("limit"@, spec_decimal(match limit { Some(d) => d as nat, None => 100nat }))]),
    {
        let d = match limit { Some(d) => d, None => 100 };
        assert(d as nat == match limit { Some(x) => x as nat, None => 100nat });
        let mut ps: Vec<(String, String)> = Vec::new();
        push_param(&mut ps, "symbol", symbol);
        let t = decimal_digits(d as u128);
        push_param(&mut ps, "limit", t.as_str());
        let r = request(HttpMethod::Get, false, market_path(self.config.market_type, "/api/v3/trades", "/fapi/v1/trades"), ps);
        assert(spec_params(r.params@) =~= seq![("symbol"@, symbol@), ("limit"@, spec_decimal(match limit { Some(x) => x as nat, None => 100nat }))]);
        r
    }

    /// 24-hour ticker of one symbol, or of all with `None`.
    pub fn ticker_request(&self, symbol: Option<&str>) -> (r: ApiRequest)
        ensures
            spec_request(r, HttpMethod::Get, false, spec_market_path(self.config.market_type, "/api/v3/ticker/24hr"@, "/fapi/v1/ticker/24hr"@),
                match symbol { Some(s) => seq![("symbol"@, s@)], None => Seq::empty() }),
    {
        let mut ps: Vec<(String, String)> = Vec::new();
        match symbol {
            Some(s) => push_param(&mut ps, "symbol", s),
            None => {},
        }
        let r = request(HttpMethod::Get, false, market_path(self.config.market_type, "/api/v3/ticker/24hr", "/fapi/v1/ticker/24hr"), ps);
        assert(spec_params(r.params@) =~= match symbol { Some(s) => seq![("symbol"@, s@)], None => Seq::empty() });
        r
    }

    /// Candles of a symbol at an interval, with optional time window and limit.
    pub fn candles_request(&self, symbol: &str, interval: Interval, start_time: Option<u64>, end_time: Option<u64>, limit: Option<usize>) -> (r: ApiRequest)
        ensures
            spec_request(r, HttpMethod::Get, false, spec_market_path(self.config.market_type, "/api/v3/klines"@, "/fapi/v1/klines"@),
                seq![("symbol"@, symbol@), ("interval"@, interval.spec_label())] + spec_window("startTime"@, "endTime"@, start_time, end_time, limit)),
    {
        let mut ps: Vec<(String, String)> = Vec::new();
        push_param(&mut ps, "symbol", symbol);
        push_param(&mut ps, "interval", BinanceConnector::interval_to_string(interval));
        push_number(&mut ps, "startTime", widen_u64(start_time));
        push_number(&mut ps, "endTime", widen_u64(end_time));
        push_number(&mut ps, "limit", widen_usize(limit));
        let r = request(HttpMethod::Get, false, market_path(self.config.market_type, "/api/v3/klines", "/fapi/v1/klines"), ps);
        assert(spec_params(r.params@) =~= seq![("symbol"@, symbol@), ("interval"@, interval.spec_label())] + spec_window("startTime"@, "endTime"@, start_time, end_time, limit));
        r
    }

    /// Opens (POST) or closes (DELETE) the user-data stream's listen key.
    pub fn listen_key_request(&self, open: bool) -> (r: ApiRequest)
        ensures
            spec_request(r, if open { HttpMethod::Post } else { HttpMethod::Delete }, false,
                spec_market_path(self.config.market_type, "/api/v3/userDataStream"@, "/fapi/v1/listenKey"@), Seq::empty()),
    {
        let m = if open { HttpMethod::Post } else { HttpMethod::Delete };
        let r = request(m, false, market_path(self.config.market_type, "/api/v3/userDataStream", "/fapi/v1/listenKey"), Vec::new());
        assert(spec_params(r.params@) =~= Seq::empty());
        r
    }

    /// Stream address for symbol names that are already lower-case, each
    /// followed by `suffix`.
    pub fn stream_url_of_lowered(&self, lowered: &Vec<String>, suffix: &str) -> (s: String)
        ensures
            s@ == spec_stream_url_of_lowered(
                spec_binance_ws_url(self.config.market_type, self.config.testnet),
                lowered@.map_values(|x: String| x@),
                suffix@,
            ),
    {
        let base = self.ws_base_url();
        let mut s = String::from_str(base);
        s.append("/stream?streams=");
        let ghost parts = lowered@.map_values(|x: String| x@).map_values(|x: Seq<char>| x + suffix@);
        let ghost head = s@;
        let mut i: usize = 0;
        while i < lowered.len()
            invariant
                i <= lowered.len(),
                parts == lowered@.map_values(|x: String| x@).map_values(|x: Seq<char>| x + suffix@),
                s@ == head + spec_join_slash(parts.take(i as int)),
            decreases lowered.len() - i,
        {
            if i > 0 {
                s.append("/");
            }
            s.append(lowered[i].as_str());
            s.append(suffix);
            proof {
                assert(parts.take(i as int + 1).drop_last() =~= parts.take(i as int));
                assert(parts[i as int] == lowered@[i as int]@ + suffix@);
                if i == 0 {
                    assert(parts.take(1) =~= seq![parts[0]]);
                }
            }
            i = i + 1;
        }
        assert(parts.take(i as int) =~= parts);
        s
    }

    /// Stream address for `symbols`, each lower-cased and followed by
    /// `suffix` (`@depth@100ms` for order books, `@trade` for trades).
    pub fn stream_url(&self, symbols: &Vec<&str>, suffix: &str) -> (s: String)
        ensures
            s@ == spec_binance_stream_url(spec_binance_ws_url(self.config.market_type, self.config.testnet), symbols@.map_values(|x: &str| x@), suffix@),
    {
        let ghost names = symbols@.map_values(|x: &str| x@);
        let mut lowered: Vec<String> = Vec::new();
        let mut i: usize = 0;
        while i < symbols.len()
            invariant
                i <= symbols.len(),
                names == symbols@.map_values(|x: &str| x@),
                lowered.len() == i,
                forall|j: int| 0 <= j < i ==> #[trigger] lowered@[j]@ == spec_lowercase(names[j]),
            decreases symbols.len() - i,
        {
            lowered.push(lowercase(symbols[i]));
            i = i + 1;
        }
        let s = self.stream_url_of_lowered(&lowered, suffix);
        assert(lowered@.map_values(|x: String| x@).map_values(|x: Seq<char>| x + suffix@)
            =~= names.map_values(|x: Seq<char>| spec_lowercase(x) + suffix@));
        s
    }
}

/// Bybit wire text of an account type.
pub open spec fn spec_bybit_account_text(t: BybitAccountType) -> Seq<char> {
    match t {
        BybitAccountType::Unified => "UNIFIED"@,
        BybitAccountType::Standard => "CONTRACT"@,
        BybitAccountType::Spot => "SPOT"@,
    }
}

/// Joins topics for a subscription: `prefix` followed by each symbol.
pub open spec fn spec_topics(prefix: Seq<char>, symbols: Seq<Seq<char>>) -> Seq<Seq<char>> {
    symbols.map_values(|s: Seq<char>| prefix + s)
}

impl BybitConnector {
    /// Server time: `GET /v5/market/time` (also the ping).
    pub fn server_time_request(&self) -> (r: ApiRequest)
        ensures
            spec_request(r, HttpMethod::Get, false, "/v5/market/time"@, Seq::empty()),
    {
        let r = request(HttpMethod::Get, false, "/v5/market/time", Vec::new());
        assert(spec_params(r.params@) =~= Seq::empty());
        r
    }

    fn category_params(&self) -> (ps: Vec<(String, String)>)
        ensures
            spec_params(ps@) == seq![("category"@, self.config.default_category.spec_text())],
    {
        let mut ps: Vec<(String, String)> = Vec::new();
        push_param(&mut ps, "category", self.config.default_category.to_string());
        assert(spec_params(ps@) =~= seq![("category"@, self.config.default_category.spec_text())]);
        ps
    }

    /// Instruments of the default category.
    pub fn exchange_info_request(&self) -> (r: ApiRequest)
        ensures
            spec_request(r, HttpMethod::Get, false, "/v5/market/instruments-info"@,
                seq![("category"@, self.config.default_category.spec_text())]),
    {
        request(HttpMethod::Get, false, "/v5/market/instruments-info", self.category_params())
    }

    /// The rate limit Bybit announces: 120 request weight per 60 s.
    pub fn default_rate_limits(&self) -> (v: Vec<RateLimit>)
        ensures
            v@ == seq![RateLimit { limit_type: RateLimitType::RequestWeight, interval_seconds: 60, limit: 120 }],
    {
        let mut v = Vec::new();
        v.push(RateLimit { limit_type: RateLimitType::RequestWeight, interval_seconds: 60, limit: 120 });
        v
    }

    /// Wallet balance of the configured account type (signed).
    pub fn balances_request(&self) -> (r: ApiRequest)
        ensures
            spec_request(r, HttpMethod::Get, true, "/v5/account/wallet-balance"@,
                seq![("accountType"@, spec_bybit_account_text(self.config.account_type))]),
    {
        let t = match self.config.account_type {
            BybitAccountType::Unified => "UNIFIED",
            BybitAccountType::Standard => "CONTRACT",
            BybitAccountType::Spot => "SPOT",
        };
        let mut ps: Vec<(String, String)> = Vec::new();
        push_param(&mut ps, "accountType", t);
        let r = request(HttpMethod::Get, true, "/v5/account/wallet-balance", ps);
        assert(spec_params(r.params@) =~= seq![("accountType"@, spec_bybit_account_text(self.config.account_type))]);
        r
    }

    /// Positions of the default category, of one symbol or all (signed).
    pub fn positions_request(&self, symbol: Option<&str>) -> (r: ApiRequest)
        ensures
            spec_request(r, HttpMethod::Get, true, "/v5/position/list"@,
                seq![("category"@, self.config.default_category.spec_text())]
                    + match symbol { Some(s) => seq![("symbol"@, s@)], None => Seq::empty() }),
    {
        let mut ps = self.category_params();
        match symbol {
            Some(s) => push_param(&mut ps, "symbol", s),
            None => {},
        }
        let r = request(HttpMethod::Get, true, "/v5/position/list", ps);
        assert(spec_params(r.params@) =~= seq![("category"@, self.config.default_category.spec_text())]
            + match symbol { Some(s) => seq![("symbol"@, s@)], None => Seq::empty() });
        r
    }

    /// A new order (signed POST with JSON fields): category, symbol, side,
    /// order type, quantity and time in force, then the price and the
    /// trigger price when there are ones.
    pub fn place_order_request(
        &self,
        symbol: &str,
        side: Side,
        order_type: OrderType,
        time_in_force: TimeInForce,
        quantity: &str,
        price: Option<&str>,
        trigger_price: Option<&str>,
    ) -> (r: ApiRequest)
        ensures
            spec_request(
                r,
                HttpMethod::Post,
                true,
                "/v5/order/create"@,
                seq![("category"@, self.config.default_category.spec_text()), ("symbol"@, symbol@), ("side"@, spec_bybit_side(side)),
                    ("orderType"@, spec_bybit_type_text(order_type)), ("qty"@, quantity@), ("timeInForce"@, spec_tif_text(time_in_force))]
                    + (match price { Some(p) => seq![("price"@, p@)], None => Seq::empty() })
                    + (match trigger_price { Some(p) => seq![("triggerPrice"@, p@)], None => Seq::empty() }),
            ),
    {
        let mut ps = self.category_params();
        push_param(&mut ps, "symbol", symbol);
        let side_text = match side { Side::Buy => "Buy", Side::Sell => "Sell" };
        push_param(&mut ps, "side", side_text);
        push_param(&mut ps, "orderType", BybitConnector::order_type_to_string(order_type));
        push_param(&mut ps, "qty", quantity);
        push_param(&mut ps, "timeInForce", BybitConnector::tif_to_string(time_in_force));
        match price {
            Some(p) => push_param(&mut ps, "price", p),
            None => {},
        }
        match trigger_price {
            Some(p) => push_param(&mut ps, "triggerPrice", p),
            None => {},
        }
        let r = request(HttpMethod::Post, true, "/v5/order/create", ps);
        assert(spec_params(r.params@) =~= seq![("category"@, self.config.default_category.spec_text()), ("symbol"@, symbol@), ("side"@, spec_bybit_side(side)),
            ("orderType"@, spec_bybit_type_text(order_type)), ("qty"@, quantity@), ("timeInForce"@, spec_tif_text(time_in_force))]
            + (match price { Some(p) => seq![("price"@, p@)], None => Seq::empty() })
            + (match trigger_price { Some(p) => seq![("triggerPrice"@, p@)], None => Seq::empty() }));
        r
    }

    /// Cancels an order by link id (signed POST).
    pub fn cancel_order_request(&self, symbol: &str, order_id: &str) -> (r: ApiRequest)
        ensures
            spec_request(r, HttpMethod::Post, true, "/v5/order/cancel"@,
                seq![("category"@, self.config.default_category.spec_text()), ("symbol"@, symbol@), ("orderLinkId"@, order_id@)]),
    {
        let mut ps = self.category_params();
        push_param(&mut ps, "symbol", symbol);
        push_param(&mut ps, "orderLinkId", order_id);
        let r = request(HttpMethod::Post, true, "/v5/order/cancel", ps);
        assert(spec_params(r.params@) =~= seq![("category"@, self.config.default_category.spec_text()), ("symbol"@, symbol@), ("orderLinkId"@, order_id@)]);
        r
    }

    /// Cancels every order of a symbol (signed POST).
    pub fn cancel_all_orders_request(&self, symbol: &str) -> (r: ApiRequest)
        ensures
            spec_request(r, HttpMethod::Post, true, "/v5/order/cancel-all"@,
                seq![("category"@, self.config.default_category.spec_text()), ("symbol"@, symbol@)]),
    {
        let mut ps = self.category_params();
        push_param(&mut ps, "symbol", symbol);
        let r = request(HttpMethod::Post, true, "/v5/order/cancel-all", ps);
        assert(spec_params(r.params@) =~= seq![("category"@, self.config.default_category.spec_text()), ("symbol"@, symbol@)]);
        r
    }

    /// Looks an order up by link id (signed).
    pub fn get_order_request(&self, symbol: &str, order_id: &str) -> (r: ApiRequest)
        ensures
            spec_request(r, HttpMethod::Get, true, "/v5/order/realtime"@,
                seq![("category"@, self.config.default_category.spec_text()), ("symbol"@, symbol@), ("orderLinkId"@, order_id@)]),
    {
        let mut ps = self.category_params();
        push_param(&mut ps, "symbol", symbol);
        push_param(&mut ps, "orderLinkId", order_id);
        let r = request(HttpMethod::Get, true, "/v5/order/realtime", ps);
        assert(spec_params(r.params@) =~= seq![("category"@, self.config.default_category.spec_text()), ("symbol"@, symbol@), ("orderLinkId"@, order_id@)]);
        r
    }

    /// Open orders, of one symbol or all (signed).
    pub fn open_orders_request(&self, symbol: Option<&str>) -> (r: ApiRequest)
        ensures
            spec_request(r, HttpMethod::Get, true, "/v5/order/realtime"@,
                seq![("category"@, self.config.default_category.spec_text())]
                    + match symbol { Some(s) => seq![("symbol"@, s@)], None => Seq::empty() }),
    {
        let mut ps = self.category_params();
        match symbol {
            Some(s) => push_param(&mut ps, "symbol", s),
            None => {},
        }
        let r = request(HttpMethod::Get, true, "/v5/order/realtime", ps);
        assert(spec_params(r.params@) =~= seq![("category"@, self.config.default_category.spec_text())]
            + match symbol { Some(s) => seq![("symbol"@, s@)], None => Seq::empty() });
        r
    }

    fn history_params(&self, symbol: &str, start_key: &str, end_key: &str, start_time: Option<u64>, end_time: Option<u64>, limit: Option<usize>) -> (ps: Vec<(String, String)>)
        ensures
            spec_params(ps@) == seq![("category"@, self.config.default_category.spec_text()), ("symbol"@, symbol@)]
                + spec_window(start_key@, end_key@, start_time, end_time, limit),
    {
        let mut ps = self.category_params();
        push_param(&mut ps, "symbol", symbol);
        push_number(&mut ps, start_key, widen_u64(start_time));
        push_number(&mut ps, end_key, widen_u64(end_time));
        push_number(&mut ps, "limit", widen_usize(limit));
        assert(spec_params(ps@) =~= seq![("category"@, self.config.default_category.spec_text()), ("symbol"@, symbol@)]
            + spec_window(start_key@, end_key@, start_time, end_time, limit));
        ps
    }

    /// Order history of a symbol, with optional time window and limit (signed).
    pub fn order_history_request(&self, symbol: &str, start_time: Option<u64>, end_time: Option<u64>, limit: Option<usize>) -> (r: ApiRequest)
        ensures
            spec_request(r, HttpMethod::Get, true, "/v5/order/history"@,
                seq![("category"@, self.config.default_category.spec_text()), ("symbol"@, symbol@)]
                    + spec_window("startTime"@, "endTime"@, start_time, end_time, limit)),
    {
        let ps = self.history_params(symbol, "startTime", "endTime", start_time, end_time, limit);
        request(HttpMethod::Get, true, "/v5/order/history", ps)
    }

    /// Executions of a symbol, with optional time window and limit (signed).
    pub fn trade_history_request(&self, symbol: &str, start_time: Option<u64>, end_time: Option<u64>, limit: Option<usize>) -> (r: ApiRequest)
        ensures
            spec_request(r, HttpMethod::Get, true, "/v5/execution/list"@,
                seq![("category"@, self.config.default_category.spec_text()), ("symbol"@, symbol@)]
                    + spec_window("startTime"@, "endTime"@, start_time, end_time, limit)),
    {
        let ps = self.history_params(symbol, "startTime", "endTime", start_time, end_time, limit);
        request(HttpMethod::Get, true, "/v5/execution/list", ps)
    }

    fn limited(&self, path: &str, symbol: &str, limit: usize) -> (r: ApiRequest)
        ensures
            spec_request(r, HttpMethod::Get, false, path@,
                seq![("category"@, self.config.default_category.spec_text()), ("symbol"@, symbol@), ("limit"@, spec_decimal(limit as nat))]),
    {
        let mut ps = self.category_params();
        push_param(&mut ps, "symbol", symbol);
        let t = decimal_digits(limit as u128);
        push_param(&mut ps, "limit", t.as_str());
        let r = request(HttpMethod::Get, false, path, ps);
        assert(spec_params(r.params@) =~= seq![("category"@, self.config.default_category.spec_text()), ("symbol"@, symbol@), ("limit"@, spec_decimal(limit as nat))]);
        r
    }

    /// Order book of a symbol, `depth` levels (50 by default).
    pub fn order_book_request(&self, symbol: &str, depth: Option<usize>) -> (r: ApiRequest)
        ensures
            spec_request(r, HttpMethod::Get, false, "/v5/market/orderbook"@,
                seq![("category"@, self.config.default_category.spec_text()), ("symbol"@, symbol@),
                    ("limit"@, spec_decimal(match depth { Some(d) => d as nat, None => 50nat }))]),
    {
        let d = match depth { Some(d) => d, None => 50 };
        assert(d as nat == match depth { Some(x) => x as nat, None => 50nat });
        let r = self.limited("/v5/market/orderbook", symbol, d);
        assert(spec_params(r.params@) =~= seq![("category"@, self.config.default_category.spec_text()), ("symbol"@, symbol@),
            ("limit"@, spec_decimal(match depth { Some(x) => x as nat, None => 50nat }))]);
        r
    }

    /// Recent trades of a symbol, `limit` of them (60 by default).
    pub fn recent_trades_request(&self, symbol: &str, limit: Option<usize>) -> (r: ApiRequest)
        ensures
            spec_request(r, HttpMethod::Get, false, "/v5/market/recent-trade"@,
                seq![("category"@, self.config.default_category.spec_text()), ("symbol"@, symbol@),
                    ("limit"@, spec_decimal(match limit { Some(d) => d as nat, None => 60nat }))]),
    {
        let d = match limit { Some(d) => d, None => 60 };
        assert(d as nat == match limit { Some(x) => x as nat, None => 60nat });
        let r = self.limited("/v5/market/recent-trade", symbol, d);
        assert(spec_params(r.params@) =~= seq![("category"@, self.config.default_category.spec_text()), ("symbol"@, symbol@),
            ("limit"@, spec_decimal(match limit { Some(x) => x as nat, None => 60nat }))]);
        r
    }

    /// Tickers of the default category, of one symbol or all.
    pub fn ticker_request(&self, symbol: Option<&str>) -> (r: ApiRequest)
        ensures
            spec_request(r, HttpMethod::Get, false, "/v5/market/tickers"@,
                seq![("category"@, self.config.default_category.spec_text())]
                    + match symbol { Some(s) => seq![("symbol"@, s@)], None => Seq::empty() }),
    {
        let mut ps = self.category_params();
        match symbol {
            Some(s) => push_param(&mut ps, "symbol", s),
            None => {},
        }
        let r = request(HttpMethod::Get, false, "/v5/market/tickers", ps);
        assert(spec_params(r.params@) =~= seq![("category"@, self.config.default_category.spec_text())]
            + match symbol { Some(s) => seq![("symbol"@, s@)], None => Seq::empty() });
        r
    }

    /// Candles of a symbol at an interval, with optional time window (`start`
    /// and `end`) and limit.
    pub fn candles_request(&self, symbol: &str, interval: Interval, start_time: Option<u64>, end_time: Option<u64>, limit: Option<usize>) -> (r: ApiRequest)
        ensures
            spec_request(r, HttpMethod::Get, false, "/v5/market/kline"@,
                seq![("category"@, self.config.default_category.spec_text()), ("symbol"@, symbol@), ("interval"@, spec_bybit_interval_text(interval))]
                    + spec_window("start"@, "end"@, start_time, end_time, limit)),
    {
        let mut ps = self.category_params();
        push_param(&mut ps, "symbol", symbol);
        push_param(&mut ps, "interval", BybitConnector::interval_to_string(interval));
        push_number(&mut ps, "start", widen_u64(start_time));
        push_number(&mut ps, "end", widen_u64(end_time));
        push_number(&mut ps, "limit", widen_usize(limit));
        let r = request(HttpMethod::Get, false, "/v5/market/kline", ps);
        assert(spec_params(r.params@) =~= seq![("category"@, self.config.default_category.spec_text()), ("symbol"@, symbol@), ("interval"@, spec_bybit_interval_text(interval))]
            + spec_window("start"@, "end"@, start_time, end_time, limit));
        r
    }

    /// Subscription topics: `prefix` followed by each symbol
    /// (`orderbook.50.` for order books, `publicTrade.` for trades).
    pub fn topics(&self, prefix: &str, symbols: &Vec<&str>) -> (v: Vec<String>)
        ensures
            v@.map_values(|t: String| t@) == spec_topics(prefix@, symbols@.map_values(|x: &str| x@)),
    {
        let mut v: Vec<String> = Vec::new();
        let mut i: usize = 0;
        while i < symbols.len()
            invariant
                i <= symbols.len(),
                v@.len() == i,
                forall|k: int| 0 <= k < i ==> #[trigger] v@[k]@ == prefix@ + symbols@[k]@,
            decreases symbols.len() - i,
        {
            let mut t = String::from_str(prefix);
            t.append(symbols[i]);
            v.push(t);
            i = i + 1;
        }
        assert(v@.map_values(|t: String| t@) =~= spec_topics(prefix@, symbols@.map_values(|x: &str| x@)));
        v
    }

    /// The text signed to authenticate the private stream, expiring at
    /// `expires` (ms): `GET/realtime` followed by it.
    pub fn stream_auth_text(&self, expires: u64) -> (s: String)
        ensures
            s@ == "GET/realtime"@ + spec_decimal(expires as nat),
    {
        let mut s = String::from_str("GET/realtime");
        let d = decimal_digits(expires as u128);
        s.append(d.as_str());
        s
    }
}

} // verus!
