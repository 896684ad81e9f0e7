use market_feed::{depth_url, trade_url, FeedConfig, DEFAULT_SYMBOL};

#[test]
fn trade_url_ends_in_the_symbol() {
    assert_eq!(trade_url("btcusdt"), "https://api.huobi.pro/market/trade?symbol=btcusdt");
    assert_eq!(trade_url("ethusdt"), "https://api.huobi.pro/market/trade?symbol=ethusdt");
    assert_eq!(trade_url(""), "https://api.huobi.pro/market/trade?symbol=");
}

#[test]
fn depth_url_asks_for_the_finest_step() {
    assert_eq!(
        depth_url("btcusdt"),
        "https://api.huobi.pro/market/depth?symbol=btcusdt&type=step0"
    );
    assert_eq!(depth_url("a b"), "https://api.huobi.pro/market/depth?symbol=a b&type=step0");
}

#[test]
fn default_config_is_for_btcusdt() {
    let config = FeedConfig::default();
    assert_eq!(DEFAULT_SYMBOL, "btcusdt");
    assert_eq!(config.symbol, "btcusdt");
    assert_eq!(config.trade_url(), "https://api.huobi.pro/market/trade?symbol=btcusdt");
    assert_eq!(
        config.depth_url(),
        "https://api.huobi.pro/market/depth?symbol=btcusdt&type=step0"
    );
}

#[test]
fn config_for_another_pair() {
    let config = FeedConfig::new("ethbtc");
    assert_eq!(config, FeedConfig { symbol: "ethbtc".to_string() });
    assert_eq!(config.trade_url(), trade_url("ethbtc"));
    assert_eq!(config.depth_url(), depth_url("ethbtc"));
}
