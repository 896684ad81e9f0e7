use vstd::prelude::*;
use vstd::string::*;

verus! {

/// The trading pair that is queried where no other is configured.
pub const DEFAULT_SYMBOL: &'static str = "btcusdt";

/// The address of the recent-trades query, up to the pair's symbol.
pub const TRADE_QUERY: &'static str = "https://api.huobi.pro/market/trade?symbol=";

/// The address of the depth query, up to the pair's symbol.
pub const DEPTH_QUERY: &'static str = "https://api.huobi.pro/market/depth?symbol=";

/// What follows the symbol in a depth query: the finest aggregation step.
pub const DEPTH_STEP: &'static str = "&type=step0";

/// The address of the recent-trades query for `symbol`.
pub open spec fn trade_url_text(symbol: Seq<char>) -> Seq<char> {
    TRADE_QUERY@ + symbol
}

/// The address of the depth query for `symbol`.
pub open spec fn depth_url_text(symbol: Seq<char>) -> Seq<char> {
    DEPTH_QUERY@ + symbol + DEPTH_STEP@
}

/// Process-wide settings of the feed.
#[derive(Clone, Debug, PartialEq, Eq)]
pub struct FeedConfig {
    /// The trading pair, as the exchange spells it in a query.
    pub symbol: String,
}

impl FeedConfig {
    /// Settings for the trading pair `symbol`.
    pub fn new(symbol: &str) -> (config: FeedConfig)
        ensures
            config.symbol@ == symbol@,
    {
        FeedConfig { symbol: String::from_str(symbol) }
    }

    /// Where the recent trades of the configured pair are fetched from.
    pub fn trade_url(&self) -> (url: String)
        ensures
            url@ == trade_url_text(self.symbol@),
    {
        trade_url(self.symbol.as_str())
    }

    /// Where the order-book depth of the configured pair is fetched from.
    pub fn depth_url(&self) -> (url: String)
        ensures
            url@ == depth_url_text(self.symbol@),
    {
        depth_url(self.symbol.as_str())
    }
}

impl Default for FeedConfig {
    /// Settings for [`DEFAULT_SYMBOL`].
    fn default() -> (config: FeedConfig)
        ensures
            config.symbol@ == DEFAULT_SYMBOL@,
    {
        FeedConfig::new(DEFAULT_SYMBOL)
    }
}

/// Where the recent trades of `symbol` are fetched from. The symbol is put
/// into the address as it is.
pub fn trade_url(symbol: &str) -> (url: String)
    ensures
        url@ == trade_url_text(symbol@),
{
    String::from_str(TRADE_QUERY).concat(symbol)
}

/// Where the order-book depth of `symbol` is fetched from. The symbol is put
/// into the address as it is.
pub fn depth_url(symbol: &str) -> (url: String)
    ensures
        url@ == depth_url_text(symbol@),
{
    String::from_str(DEPTH_QUERY).concat(symbol).concat(DEPTH_STEP)
}

} // verus!
