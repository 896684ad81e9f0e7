use vstd::prelude::*;

verus! {

/// The number of price levels kept on each side of an order book.
pub const DEPTH_LIMIT: usize = 20;

/// One price at one time. Both fields are text: a price is never held as a
/// binary fraction, so what the exchange sent is what a client reads.
#[derive(Clone, Debug, PartialEq, Eq)]
pub struct BtcPrice {
    pub price: String,
    pub time: String,
}

/// What a [`BtcPrice`] says.
pub struct BtcPriceView {
    pub price: Seq<char>,
    pub time: Seq<char>,
}

impl View for BtcPrice {
    type V = BtcPriceView;

    open spec fn view(&self) -> BtcPriceView {
        BtcPriceView { price: self.price@, time: self.time@ }
    }
}

impl DeepView for BtcPrice {
    type V = BtcPriceView;

    open spec fn deep_view(&self) -> BtcPriceView {
        self@
    }
}

/// One executed trade, every value as text.
#[derive(Clone, Debug, PartialEq, Eq)]
pub struct BtcTrade {
    pub timestamp: String,
    pub price: String,
    pub amount: String,
    pub direction: String,
}

/// What a [`BtcTrade`] says.
pub struct BtcTradeView {
    pub timestamp: Seq<char>,
    pub price: Seq<char>,
    pub amount: Seq<char>,
    pub direction: Seq<char>,
}

impl View for BtcTrade {
    type V = BtcTradeView;

    open spec fn view(&self) -> BtcTradeView {
        BtcTradeView {
            timestamp: self.timestamp@,
            price: self.price@,
            amount: self.amount@,
            direction: self.direction@,
        }
    }
}

impl DeepView for BtcTrade {
    type V = BtcTradeView;

    open spec fn deep_view(&self) -> BtcTradeView {
        self@
    }
}

/// One resting price level of an order book.
#[derive(Clone, Debug, PartialEq, Eq)]
pub struct OrderBookEntry {
    pub price: String,
    pub quantity: String,
}

/// What an [`OrderBookEntry`] says.
pub struct OrderBookEntryView {
    pub price: Seq<char>,
    pub quantity: Seq<char>,
}

impl View for OrderBookEntry {
    type V = OrderBookEntryView;

    open spec fn view(&self) -> OrderBookEntryView {
        OrderBookEntryView { price: self.price@, quantity: self.quantity@ }
    }
}

impl DeepView for OrderBookEntry {
    type V = OrderBookEntryView;

    open spec fn deep_view(&self) -> OrderBookEntryView {
        self@
    }
}

/// Both sides of an order book, each in the exchange's order.
#[derive(Clone, Debug, PartialEq, Eq)]
pub struct OrderBook {
    pub asks: Vec<OrderBookEntry>,
    pub bids: Vec<OrderBookEntry>,
}

/// What an [`OrderBook`] says.
pub struct OrderBookView {
    pub asks: Seq<OrderBookEntryView>,
    pub bids: Seq<OrderBookEntryView>,
}

impl View for OrderBook {
    type V = OrderBookView;

    open spec fn view(&self) -> OrderBookView {
        OrderBookView { asks: self.asks.deep_view(), bids: self.bids.deep_view() }
    }
}

impl DeepView for OrderBook {
    type V = OrderBookView;

    open spec fn deep_view(&self) -> OrderBookView {
        self@
    }
}

impl OrderBook {
    /// Neither side holds more than [`DEPTH_LIMIT`] levels.
    pub open spec fn well_formed(&self) -> bool {
        self.asks.len() <= DEPTH_LIMIT && self.bids.len() <= DEPTH_LIMIT
    }
}

} // verus!
