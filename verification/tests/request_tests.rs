use octane::api_requests::{ApiRequest, HttpMethod};
use octane::binance::{BinanceConfig, BinanceConnector, BinanceMarketType};
use octane::bybit::{BybitAccountType, BybitCategory, BybitConfig, BybitConnector};
use octane::exchanges::{RateLimit, RateLimitType};
use octane::live_types::{Interval, OrderType, Side, TimeInForce};

fn pairs(r: &ApiRequest) -> Vec<(&str, &str)> {
    r.params.iter().map(|(k, v)| (k.as_str(), v.as_str())).collect()
}

fn limits(v: Vec<RateLimit>) -> Vec<(RateLimitType, u64, u64)> {
    v.into_iter().map(|r| (r.limit_type, r.interval_seconds, r.limit)).collect()
}

fn spot() -> BinanceConnector {
    BinanceConnector::new(BinanceConfig::new())
}

fn futures() -> BinanceConnector {
    BinanceConnector::new(BinanceConfig::new().market_type(BinanceMarketType::Futures))
}

#[test]
fn binance_paths_follow_market() {
    assert_eq!(spot().ping_request().path, "/api/v3/ping");
    assert_eq!(futures().ping_request().path, "/api/v3/ping");
    assert_eq!(spot().exchange_info_request().path, "/api/v3/exchangeInfo");
    assert_eq!(futures().exchange_info_request().path, "/fapi/v1/exchangeInfo");
    assert_eq!(futures().balances_request().path, "/fapi/v2/account");
    assert!(futures().balances_request().signed);
    assert!(spot().positions_request().is_none());
    assert_eq!(futures().positions_request().unwrap().path, "/fapi/v2/positionRisk");
    assert_eq!(futures().cancel_all_orders_request("BTCUSDT").path, "/fapi/v1/allOpenOrders");
    assert_eq!(spot().cancel_all_orders_request("BTCUSDT").method, HttpMethod::Delete);
    assert_eq!(spot().listen_key_request(true).method, HttpMethod::Post);
    assert_eq!(futures().listen_key_request(false).path, "/fapi/v1/listenKey");
    assert_eq!(spot().server_time_request().path, "/api/v3/time");
}

#[test]
fn binance_order_parameters() {
    let r = spot().place_order_request("BTCUSDT", Side::Buy, OrderType::Limit, TimeInForce::IOC, "0.5", Some("50000"), None);
    assert_eq!(r.method, HttpMethod::Post);
    assert!(r.signed);
    assert_eq!(r.path, "/api/v3/order");
    assert_eq!(
        pairs(&r),
        vec![("symbol", "BTCUSDT"), ("side", "BUY"), ("type", "LIMIT"), ("quantity", "0.5"), ("price", "50000"), ("timeInForce", "IOC")]
    );
    let m = futures().place_order_request("ETHUSDT", Side::Sell, OrderType::StopLoss, TimeInForce::GTC, "1", None, Some("1800"));
    assert_eq!(m.path, "/fapi/v1/order");
    assert_eq!(pairs(&m), vec![("symbol", "ETHUSDT"), ("side", "SELL"), ("type", "STOP_LOSS"), ("quantity", "1"), ("stopPrice", "1800")]);
    let c = spot().cancel_order_request("BTCUSDT", "abc");
    assert_eq!(pairs(&c), vec![("symbol", "BTCUSDT"), ("origClientOrderId", "abc")]);
    assert!(pairs(&spot().open_orders_request(None)).is_empty());
}

#[test]
fn binance_queries_with_defaults_and_windows() {
    let h = spot().order_history_request("BTCUSDT", Some(10), None, Some(5));
    assert_eq!(h.path, "/api/v3/allOrders");
    assert_eq!(pairs(&h), vec![("symbol", "BTCUSDT"), ("startTime", "10"), ("limit", "5")]);
    assert_eq!(futures().trade_history_request("X", None, Some(7), None).path, "/fapi/v1/userTrades");
    assert_eq!(pairs(&spot().order_book_request("BTCUSDT", None)), vec![("symbol", "BTCUSDT"), ("limit", "100")]);
    assert_eq!(pairs(&spot().recent_trades_request("BTCUSDT", Some(7))), vec![("symbol", "BTCUSDT"), ("limit", "7")]);
    let k = futures().candles_request("BTCUSDT", Interval::H4, None, None, Some(2));
    assert_eq!(k.path, "/fapi/v1/klines");
    assert_eq!(pairs(&k), vec![("symbol", "BTCUSDT"), ("interval", "4h"), ("limit", "2")]);
    assert_eq!(spot().ticker_request(None).path, "/api/v3/ticker/24hr");
    assert_eq!(
        limits(spot().default_rate_limits()),
        vec![(RateLimitType::RequestWeight, 60, 1200), (RateLimitType::Orders, 60, 100)]
    );
}

#[test]
fn binance_stream_addresses() {
    let url = spot().stream_url(&vec!["BTCUSDT", "EthUsdt"], "@depth@100ms");
    assert_eq!(url, "wss://stream.binance.com:9443/stream?streams=btcusdt@depth@100ms/ethusdt@depth@100ms");
    assert_eq!(spot().stream_url(&vec![], "@trade"), "wss://stream.binance.com:9443/stream?streams=");
    let lowered = vec![String::from("btcusdt"), String::from("ethusdt")];
    assert_eq!(
        spot().stream_url_of_lowered(&lowered, "@trade"),
        "wss://stream.binance.com:9443/stream?streams=btcusdt@trade/ethusdt@trade"
    );
    // Names are used as given: nothing is lower-cased here.
    assert_eq!(
        spot().stream_url_of_lowered(&vec![String::from("BTC")], "@trade"),
        "wss://stream.binance.com:9443/stream?streams=BTC@trade"
    );
}

#[test]
fn bybit_requests() {
    let b = BybitConnector::new(BybitConfig::new().default_category(BybitCategory::Spot).account_type(BybitAccountType::Standard));
    assert_eq!(b.server_time_request().path, "/v5/market/time");
    assert_eq!(pairs(&b.exchange_info_request()), vec![("category", "spot")]);
    assert_eq!(pairs(&b.balances_request()), vec![("accountType", "CONTRACT")]);
    let o = b.place_order_request("BTCUSDT", Side::Buy, OrderType::Market, TimeInForce::FOK, "2", None, Some("3"));
    assert_eq!(o.path, "/v5/order/create");
    assert_eq!(o.method, HttpMethod::Post);
    assert_eq!(
        pairs(&o),
        vec![("category", "spot"), ("symbol", "BTCUSDT"), ("side", "Buy"), ("orderType", "Market"), ("qty", "2"), ("timeInForce", "FOK"), ("triggerPrice", "3")]
    );
    assert_eq!(pairs(&b.order_book_request("BTCUSDT", None)), vec![("category", "spot"), ("symbol", "BTCUSDT"), ("limit", "50")]);
    assert_eq!(pairs(&b.recent_trades_request("BTCUSDT", None))[2], ("limit", "60"));
    let k = b.candles_request("BTCUSDT", Interval::D1, Some(1), Some(2), None);
    assert_eq!(pairs(&k), vec![("category", "spot"), ("symbol", "BTCUSDT"), ("interval", "D"), ("start", "1"), ("end", "2")]);
    assert_eq!(b.trade_history_request("BTCUSDT", None, None, None).path, "/v5/execution/list");
    assert_eq!(b.cancel_all_orders_request("BTCUSDT").path, "/v5/order/cancel-all");
    assert_eq!(pairs(&b.positions_request(Some("BTCUSDT"))), vec![("category", "spot"), ("symbol", "BTCUSDT")]);
    assert_eq!(b.topics("orderbook.50.", &vec!["BTCUSDT", "ETHUSDT"]), vec!["orderbook.50.BTCUSDT", "orderbook.50.ETHUSDT"]);
    assert_eq!(b.stream_auth_text(12345), "GET/realtime12345");
    assert_eq!(limits(b.default_rate_limits()), vec![(RateLimitType::RequestWeight, 60, 120)]);
}
