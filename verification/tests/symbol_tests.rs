use octane::symbols::parse_symbol;

#[test]
fn splits_on_known_quote_assets() {
    assert_eq!(parse_symbol("BTCUSDT"), Ok(("BTC".to_string(), "USDT".to_string())));
    assert_eq!(parse_symbol("ETHUSDC"), Ok(("ETH".to_string(), "USDC".to_string())));
    assert_eq!(parse_symbol("ETHBTC"), Ok(("ETH".to_string(), "BTC".to_string())));
    assert_eq!(parse_symbol("SOLBNB"), Ok(("SOL".to_string(), "BNB".to_string())));
    assert_eq!(parse_symbol("USDT"), Ok(("".to_string(), "USDT".to_string())));
}

#[test]
fn falls_back_to_last_four_bytes() {
    assert_eq!(parse_symbol("XRPEURO"), Ok(("XRP".to_string(), "EURO".to_string())));
    let err = parse_symbol("ABCD").unwrap_err();
    assert_eq!(err.message(), "Cannot parse symbol: ABCD");
}
