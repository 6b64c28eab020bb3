use octane::binance::{BinanceConfig, BinanceConnector, BinanceMarketType};
use octane::bybit::{BybitCategory, BybitConfig, BybitConnector};
use octane::exchanges::{hmac_sha256, ApiCredentials, ConnectionStatus, RateLimiter};
use octane::sha256::{hmac_sha256_bytes, sha256_concat};
use octane::live_types::{Interval, OrderStatus, OrderType, Side, TimeInForce};

#[test]
fn test_rate_limiter() {
    let mut limiter = RateLimiter::new(100, 10, 60);

    assert!(limiter.can_request(50));
    limiter.record_request(50);
    assert!(limiter.can_request(50));
    limiter.record_request(50);
    assert!(!limiter.can_request(1));
}

#[test]
fn test_api_credentials() {
    let creds = ApiCredentials::new("key", "secret").with_passphrase("pass");
    assert_eq!(creds.api_key, "key");
    assert_eq!(creds.api_secret, "secret");
    assert_eq!(creds.passphrase, Some("pass".to_string()));
}

#[test]
fn test_binance_config() {
    let config = BinanceConfig::default()
        .api_key("test_key")
        .api_secret("test_secret")
        .market_type(BinanceMarketType::Futures)
        .testnet(true);

    assert_eq!(config.market_type, BinanceMarketType::Futures);
    assert!(config.testnet);
    assert!(config.credentials.is_some());
}

#[test]
fn binance_test_interval_to_string() {
    assert_eq!(BinanceConnector::interval_to_string(Interval::M1), "1m");
    assert_eq!(BinanceConnector::interval_to_string(Interval::H4), "4h");
    assert_eq!(BinanceConnector::interval_to_string(Interval::D1), "1d");
}

#[test]
fn binance_test_base_urls() {
    let spot_config = BinanceConfig::default();
    let spot = BinanceConnector::new(spot_config);
    assert!(spot.rest_base_url().contains("api.binance.com"));

    let futures_config = BinanceConfig::default().market_type(BinanceMarketType::Futures);
    let futures = BinanceConnector::new(futures_config);
    assert!(futures.rest_base_url().contains("fapi.binance.com"));

    let testnet_config = BinanceConfig::default().testnet(true);
    let testnet = BinanceConnector::new(testnet_config);
    assert!(testnet.rest_base_url().contains("testnet"));
}

#[test]
fn test_bybit_config() {
    let config = BybitConfig::default()
        .api_key("test_key")
        .api_secret("test_secret")
        .default_category(BybitCategory::Linear)
        .testnet(true);

    assert_eq!(config.default_category, BybitCategory::Linear);
    assert!(config.testnet);
    assert!(config.credentials.is_some());
}

#[test]
fn bybit_test_interval_to_string() {
    assert_eq!(BybitConnector::interval_to_string(Interval::M1), "1");
    assert_eq!(BybitConnector::interval_to_string(Interval::H1), "60");
    assert_eq!(BybitConnector::interval_to_string(Interval::D1), "D");
}

#[test]
fn bybit_test_base_urls() {
    let config = BybitConfig::default();
    let connector = BybitConnector::new(config);
    assert!(connector.rest_base_url().contains("api.bybit.com"));

    let testnet_config = BybitConfig::default().testnet(true);
    let testnet = BybitConnector::new(testnet_config);
    assert!(testnet.rest_base_url().contains("testnet"));
}

#[test]
fn signature_values() {
    // The published HMAC-SHA256 example.
    assert_eq!(
        hmac_sha256("key", "The quick brown fox jumps over the lazy dog"),
        "f7bc83f430538424b13298e6aa6fb143ef4d59a14946175997479dbc2d1a3cd8"
    );
    assert_eq!(hmac_sha256("key", "msg"), "2d93cbc1be167bcb1637a4a23cbff01a7878f0c50ee833954ea5221bb1b8c628");
    assert_eq!(hmac_sha256("", ""), "b613679a0814d9ec772f95d778c35fc5ff1697c493715653c6c712144292c5ad");
    assert_eq!(hmac_sha256("abc", ""), "e2636077506729a8f61aff2441332e40e844a8ad44489efd80210ea6d1f51088");
    // A key of exactly one block is used as it is; a longer one is hashed first.
    assert_eq!(hmac_sha256(&"x".repeat(64), "y"), "991f7b3da3e37f86d9302e1b5cea40f11bb36d147b1ca467b3df755915e9cb9a");
    assert_eq!(hmac_sha256(&"x".repeat(100), "y"), "efb901ac68b584fde22d15d367908fd11cc0461744cb341e9085d42bac29040e");
    // Messages whose padding needs one more block, and one just short of it.
    assert_eq!(hmac_sha256("k", &"a".repeat(56)), "bc446082d08be8bf111c25f6b4d227bfbcc94721f7388c69fc93a6699de8ab3b");
    assert_eq!(hmac_sha256("k", &"a".repeat(55)), "2cc44ce77061ae61e565e2ba633d3fb0c3f0a40d8183dc37eb47a18abda4baf2");
}

#[test]
fn binance_signed_query_is_exact() {
    let cfg = BinanceConfig::new().api_key("k").api_secret("s3cr3t");
    let conn = BinanceConnector::new(cfg);
    let q = conn
        .build_signed_query_at(&[("symbol", "BTCUSDT"), ("side", "BUY")], 1_700_000_000_000)
        .unwrap();
    assert_eq!(
        q,
        "symbol=BTCUSDT&side=BUY&timestamp=1700000000000&recvWindow=5000&signature=e97abb6998dc9989c9d5f65b7493332eca34287305c4b9b787b0bc19ee7964fe"
    );
    let no_params = conn.build_signed_query_at(&[], 5).unwrap();
    assert!(no_params.starts_with("timestamp=5&recvWindow=5000&signature="));
    let unsigned = BinanceConnector::new(BinanceConfig::new());
    assert!(unsigned.build_signed_query_at(&[("a", "b")], 1).is_none());
    assert!(unsigned.sign_request("x").is_none());
}

#[test]
fn bybit_signature_covers_timestamp_key_window_params() {
    let cfg = BybitConfig::new().api_key("k").api_secret("s3cr3t");
    let conn = BybitConnector::new(cfg);
    assert_eq!(
        conn.sign_request(1_700_000_000_000, "p").unwrap(),
        "19ea4e918a7a44279f5476acbb3a2fff145db2b587ff841930998717526d6c89"
    );
    assert!(BybitConnector::new(BybitConfig::new()).sign_request(1, "p").is_none());
}

#[test]
fn wire_conversions() {
    assert_eq!(BinanceConnector::parse_order_status("NEW"), OrderStatus::Submitted);
    assert_eq!(BinanceConnector::parse_order_status("CANCELED"), OrderStatus::Cancelled);
    assert_eq!(BinanceConnector::parse_order_status("weird"), OrderStatus::Pending);
    assert_eq!(BinanceConnector::parse_order_type("STOP"), OrderType::StopLoss);
    assert_eq!(BinanceConnector::parse_order_type("STOP_MARKET"), OrderType::StopLimit);
    assert_eq!(BinanceConnector::parse_order_type("??"), OrderType::Limit);
    assert_eq!(BinanceConnector::parse_side("SELL"), Side::Sell);
    assert_eq!(BinanceConnector::parse_side("sell"), Side::Buy);
    assert_eq!(BinanceConnector::order_type_to_string(OrderType::StopLimit), "STOP_LOSS_LIMIT");
    assert_eq!(BinanceConnector::tif_to_string(TimeInForce::GTD(9)), "GTC");
    assert_eq!(BybitConnector::parse_order_status("PartiallyFilled"), OrderStatus::PartiallyFilled);
    assert_eq!(BybitConnector::parse_order_status("NEW"), OrderStatus::Pending);
    assert_eq!(BybitConnector::order_type_to_string(OrderType::StopLimit), "Stop");
    assert_eq!(BybitConnector::interval_to_string(Interval::H8), "60");
    assert_eq!(BybitConnector::interval_to_string(Interval::D3), "60");
    assert_eq!(BybitCategory::Inverse.to_string(), "inverse");
}

#[test]
fn connector_names_and_urls() {
    let c = BinanceConnector::new(BinanceConfig::new().market_type(BinanceMarketType::CoinFutures));
    assert_eq!(c.name(), "Binance COIN-M Futures");
    assert_eq!(c.rest_base_url(), "https://dapi.binance.com");
    assert_eq!(c.ws_base_url(), "wss://dstream.binance.com");
    assert_eq!(c.status, ConnectionStatus::Disconnected);
    let b = BybitConnector::new(BybitConfig::new().default_category(BybitCategory::Spot).testnet(true));
    assert_eq!(b.name(), "Bybit Spot");
    assert_eq!(b.ws_base_url(), "wss://stream-testnet.bybit.com/v5/public/spot");
    assert_eq!(b.ws_private_url(), "wss://stream-testnet.bybit.com/v5/private");
}

#[test]
fn connection_state_changes() {
    let mut c = BinanceConnector::new(BinanceConfig::new());
    c.listen_key = Some("lk".to_string());
    c.mark_connected();
    assert_eq!(c.status, ConnectionStatus::Connected);
    c.mark_disconnected();
    assert_eq!(c.status, ConnectionStatus::Disconnected);
    assert!(c.listen_key.is_none());
}

#[test]
fn rate_limiter_orders_and_waits() {
    let mut limiter = RateLimiter::new(10, 2, 60);
    assert!(limiter.can_order());
    limiter.record_order();
    limiter.record_order();
    assert!(!limiter.can_order());
    assert_eq!(limiter.wait_time_ms(5), 0);
    limiter.record_request(8);
    // 8 + 5 > 10: wait until the window (60 s) ends.
    assert_eq!(limiter.wait_time_after(5, 10_000_000_000), 50_000);
    assert_eq!(limiter.wait_time_after(5, 60_000_000_000), 0);
    assert!(limiter.wait_time_ms(5) > 0);
    // Rolling the window after it expired refills both budgets.
    let now = std::time::Instant::now();
    limiter.roll_window(60_000_000_000, now);
    assert!(limiter.can_order());
    assert!(limiter.can_request(10));
}

#[test]
fn rate_limiter_request_fits_after_the_wait() {
    let now = std::time::Instant::now();
    let mut limiter = RateLimiter::new(10, 2, 60);
    limiter.record_request_after(8, 0, now);
    assert!(limiter.can_request(2));
    assert!(!limiter.can_request(5));
    // A request over the limit on its own never fits.
    assert!(!limiter.can_request(11));
    let elapsed: u128 = 10_000_000_000;
    assert!(!limiter.can_request_after(5, elapsed));
    let wait = limiter.wait_time_after(5, elapsed);
    assert_eq!(wait, 50_000);
    // The wait is rounded up to whole milliseconds.
    assert_eq!(limiter.wait_time_after(5, elapsed + 1), 50_000);
    assert_eq!(limiter.wait_time_after(5, 59_999_999_999), 1);
    // Waiting exactly the returned time renews the window.
    let later = elapsed + wait as u128 * 1_000_000;
    assert!(!limiter.can_request_after(5, later - 1));
    assert!(limiter.can_request_after(5, later));
    assert!(!limiter.can_request_after(11, later));
    // Recording in a window that has run its course counts only the new request.
    limiter.record_request_after(5, later, now);
    assert!(limiter.can_request(5));
    assert!(!limiter.can_request(6));
    // Within the window, orders add up; after it, the count restarts at one.
    limiter.record_order_after(0, now);
    limiter.record_order_after(0, now);
    assert!(!limiter.can_order());
    limiter.record_order_after(60_000_000_000, now);
    assert!(limiter.can_order());
    assert!(limiter.can_request(10));
}

#[test]
fn config_defaults() {
    let b = BinanceConfig::new();
    assert_eq!(b.timeout_ms, 5000);
    assert_eq!(b.ws_ping_interval, 30);
    assert_eq!(b.market_type, BinanceMarketType::Spot);
    let b2 = b.timeout_ms(1).recv_window(2).enable_websocket(false).auto_reconnect(false);
    assert_eq!((b2.timeout_ms, b2.recv_window, b2.enable_websocket, b2.auto_reconnect), (1, 2, false, false));
    let y = BybitConfig::new();
    assert_eq!(y.ws_ping_interval, 20);
    assert_eq!(y.default_category, BybitCategory::Linear);
    let k = BybitConfig::new().api_secret("only-secret");
    let cr = k.credentials.unwrap();
    assert_eq!(cr.api_key, "");
    assert_eq!(cr.api_secret, "only-secret");
}

#[test]
fn zero_interval_limiter_always_refills() {
    let mut limiter = RateLimiter::new(10, 1, 0);
    limiter.record_request(8);
    limiter.record_order();
    limiter.maybe_reset();
    assert!(limiter.can_request(10));
    assert!(limiter.can_order());
}

fn hex_of(bytes: &[u8]) -> String {
    bytes.iter().map(|b| format!("{:02x}", b)).collect()
}

#[test]
fn sha256_digests() {
    assert_eq!(
        hex_of(&sha256_concat(&b"ab".to_vec(), &b"c".to_vec())),
        "ba7816bf8f01cfea414140de5dae2223b00361a396177a9cb410ff61f20015ad"
    );
    assert_eq!(
        hex_of(&sha256_concat(&Vec::new(), &Vec::new())),
        "e3b0c44298fc1c149afbf4c8996fb92427ae41e4649b934ca495991b7852b855"
    );
    assert_eq!(hex_of(&sha256_concat(&vec![b'a'; 119], &Vec::new())), "31eba51c313a5c08226adf18d4a359cfdfd8d2e816b13f4af952f7ea6584dcfb");
    assert_eq!(
        hex_of(&hmac_sha256_bytes(&b"key".to_vec(), &b"msg".to_vec())),
        "2d93cbc1be167bcb1637a4a23cbff01a7878f0c50ee833954ea5221bb1b8c628"
    );
}
