pub mod clock;
pub mod endpoint;
pub mod error;
pub mod facade;
pub mod huobi;
pub mod poller;
pub mod records;

pub use clock::{
    checked_time, epoch_origin_text, epoch_seconds, parse_price_time, timestamp_or_origin,
    trade_timestamp, Timestamp, PRICE_TIME_FORMAT,
};
pub use endpoint::{depth_url, trade_url, FeedConfig, DEFAULT_SYMBOL};
pub use error::FeedError;
pub use facade::{
    price_with_time, respond, respond_price, Reply, STATUS_INTERNAL_SERVER_ERROR, STATUS_OK,
};
pub use huobi::{
    huobi_asks, huobi_bids, huobi_btc_price, huobi_btc_trades, huobi_order_book, normalize_trade,
    top_levels, DepthData, DepthResponse, Tick, TickData, Trade, TradeData,
    TradeResponse, Trades,
};
pub use poller::{next_action, rest, store_or_rest, PollAction, PollEvent, POLL_DELAY_SECONDS};
pub use records::{
    BtcPrice, BtcPriceView, BtcTrade, BtcTradeView, OrderBook, OrderBookEntry,
    OrderBookEntryView, OrderBookView, DEPTH_LIMIT,
};
