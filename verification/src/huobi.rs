use crate::clock::{trade_time_text, trade_timestamp};
use crate::error::FeedError;
use crate::records::{
    BtcPrice, BtcPriceView, BtcTrade, BtcTradeView, OrderBook, OrderBookEntry,
    OrderBookEntryView, OrderBookView, DEPTH_LIMIT,
};
use vstd::prelude::*;

verus! {

/// One entry of the recent-trades answer, read for its price alone.
#[derive(Clone, Debug, PartialEq, Eq)]
pub struct TradeData {
    /// The price as decimal text.
    pub price: String,
}

/// The list of entries in a recent-trades answer, in the exchange's order.
#[derive(Clone, Debug, PartialEq, Eq)]
pub struct TickData {
    pub data: Vec<TradeData>,
}

/// The recent-trades answer of the exchange, read for prices alone.
#[derive(Clone, Debug, PartialEq, Eq)]
pub struct TradeResponse {
    pub tick: TickData,
}

impl View for TradeResponse {
    /// The listed prices, in the exchange's order.
    type V = Seq<Seq<char>>;

    open spec fn view(&self) -> Seq<Seq<char>> {
        Seq::new(self.tick.data.len() as nat, |i: int| self.tick.data[i].price@)
    }
}

/// One entry of the recent-trades answer. Numbers with a fraction are held
/// as decimal text.
#[derive(Clone, Debug, PartialEq, Eq)]
pub struct Trade {
    pub id: String,
    /// Milliseconds since 1970-01-01 00:00:00 UTC.
    pub ts: u64,
    pub price: String,
    pub amount: String,
    /// `buy` or `sell`, or whatever else the exchange calls a side.
    pub direction: String,
}

/// What a [`Trade`] says.
pub struct TradeView {
    pub id: Seq<char>,
    pub ts: u64,
    pub price: Seq<char>,
    pub amount: Seq<char>,
    pub direction: Seq<char>,
}

impl View for Trade {
    type V = TradeView;

    open spec fn view(&self) -> TradeView {
        TradeView {
            id: self.id@,
            ts: self.ts,
            price: self.price@,
            amount: self.amount@,
            direction: self.direction@,
        }
    }
}

/// The list of entries in a recent-trades answer, in the exchange's order.
#[derive(Clone, Debug, PartialEq, Eq)]
pub struct Tick {
    pub data: Vec<Trade>,
}

/// The recent-trades answer of the exchange.
#[derive(Clone, Debug, PartialEq, Eq)]
pub struct Trades {
    pub tick: Tick,
}

impl View for Trades {
    /// The listed trades, in the exchange's order.
    type V = Seq<TradeView>;

    open spec fn view(&self) -> Seq<TradeView> {
        Seq::new(self.tick.data.len() as nat, |i: int| self.tick.data[i]@)
    }
}

/// Both sides of a depth answer. A level is a list of decimal texts: the
/// price first, the quantity second.
#[derive(Clone, Debug, PartialEq, Eq)]
pub struct DepthData {
    pub asks: Vec<Vec<String>>,
    pub bids: Vec<Vec<String>>,
}

/// The depth answer of the exchange.
#[derive(Clone, Debug, PartialEq, Eq)]
pub struct DepthResponse {
    pub tick: DepthData,
}

/// What a [`DepthResponse`] says: the levels of each side, in the
/// exchange's order.
pub struct DepthView {
    pub asks: Seq<Seq<Seq<char>>>,
    pub bids: Seq<Seq<Seq<char>>>,
}

impl View for DepthResponse {
    type V = DepthView;

    open spec fn view(&self) -> DepthView {
        DepthView { asks: self.tick.asks.deep_view(), bids: self.tick.bids.deep_view() }
    }
}

/// What an outcome says: the model of the record, or the failure.
pub open spec fn modeled<T: DeepView>(outcome: Result<T, FeedError>) -> Result<T::V, FeedError> {
    match outcome {
        Ok(record) => Ok(record.deep_view()),
        Err(failure) => Err(failure),
    }
}

/// The price point of a list of prices: the first listed price, as it is,
/// at the time the list was fetched. An empty list has none.
pub open spec fn latest_price(prices: Seq<Seq<char>>, fetched_at: Seq<char>) -> Result<
    BtcPriceView,
    FeedError,
> {
    if prices.len() == 0 {
        Err(FeedError::EmptyData)
    } else {
        Ok(BtcPriceView { price: prices[0], time: fetched_at })
    }
}

/// The current price: that of the first trade that `response` lists, which
/// is where the exchange puts its most recent, as the text it was sent in.
/// Its time is `fetched_at`, the time at which the caller fetched the
/// answer. Fails with [`FeedError::EmptyData`] where the answer lists no
/// trade.
pub fn huobi_btc_price(response: &TradeResponse, fetched_at: String) -> (price: Result<
    BtcPrice,
    FeedError,
>)
    ensures
        modeled(price) == latest_price(response@, fetched_at@),
{
    if response.tick.data.len() == 0 {
        return Err(FeedError::EmptyData);
    }
    Ok(BtcPrice { price: response.tick.data[0].price.clone(), time: fetched_at })
}

/// The record of one listed trade: the trade's own texts, under a time text
/// made from its millisecond stamp.
pub open spec fn normalized(trade: TradeView) -> BtcTradeView {
    BtcTradeView {
        timestamp: trade_time_text(trade.ts),
        price: trade.price,
        amount: trade.amount,
        direction: trade.direction,
    }
}

/// The records of a list of trades: one for each, in the same order.
pub open spec fn normalized_trades(listed: Seq<TradeView>) -> Seq<BtcTradeView> {
    Seq::new(listed.len(), |i: int| normalized(listed[i]))
}

/// The record of `trade` under the time text `timestamp`.
pub fn normalize_trade(trade: &Trade, timestamp: String) -> (record: BtcTrade)
    ensures
        record@ == (BtcTradeView {
            timestamp: timestamp@,
            price: trade.price@,
            amount: trade.amount@,
            direction: trade.direction@,
        }),
{
    BtcTrade {
        timestamp,
        price: trade.price.clone(),
        amount: trade.amount.clone(),
        direction: trade.direction.clone(),
    }
}

/// The recent trades: one record for each trade that `response` lists, in
/// the order of the answer. An answer without trades gives an empty list.
pub fn huobi_btc_trades(response: &Trades) -> (trades: Vec<BtcTrade>)
    ensures
        trades.deep_view() == normalized_trades(response@),
        trades.len() == response.tick.data.len(),
        response@.len() == 0 ==> trades@.len() == 0,
{
    let mut trades: Vec<BtcTrade> = Vec::new();
    let mut i: usize = 0;
    while i < response.tick.data.len()
        invariant
            i <= response.tick.data.len(),
            trades.len() == i,
            forall|j: int| 0 <= j < i ==> trades[j]@ == normalized(#[trigger] response@[j]),
        decreases response.tick.data.len() - i,
    {
        let trade = &response.tick.data[i];
        trades.push(normalize_trade(trade, trade_timestamp(trade.ts)));
        i += 1;
    }
    assert(trades.deep_view() =~= normalized_trades(response@));
    trades
}

/// How many of `available` levels are kept: all of them up to
/// [`DEPTH_LIMIT`], and no more than that.
pub open spec fn kept(available: nat) -> nat {
    if available <= DEPTH_LIMIT {
        available
    } else {
        DEPTH_LIMIT as nat
    }
}

/// The entry of one level: its first text as the price, its second as the
/// quantity.
pub open spec fn level_entry(level: Seq<Seq<char>>) -> OrderBookEntryView {
    OrderBookEntryView { price: level[0], quantity: level[1] }
}

/// Every level that is kept has a price and a quantity.
pub open spec fn top_complete(levels: Seq<Seq<Seq<char>>>) -> bool {
    forall|i: int| 0 <= i < kept(levels.len()) ==> (#[trigger] levels[i]).len() >= 2
}

/// The entries of the levels that are kept, in the order of the levels.
pub open spec fn top_entries(levels: Seq<Seq<Seq<char>>>) -> Seq<OrderBookEntryView> {
    Seq::new(kept(levels.len()), |i: int| level_entry(levels[i]))
}

/// One side of the book: the entries of the first [`DEPTH_LIMIT`] levels, or
/// a decode failure where one of those levels lacks its price or quantity.
pub open spec fn book_side(levels: Seq<Seq<Seq<char>>>) -> Result<
    Seq<OrderBookEntryView>,
    FeedError,
> {
    if top_complete(levels) {
        Ok(top_entries(levels))
    } else {
        Err(FeedError::Decode)
    }
}

/// `entries` show the top of `levels`: twenty of them where there are twenty
/// levels or more, all of them where there are fewer, and the entry at each
/// place holds the first two texts of the level at that place, unchanged.
pub open spec fn shows_top_of(entries: Vec<OrderBookEntry>, levels: &Vec<Vec<String>>) -> bool {
    &&& levels.len() >= 20 ==> entries.len() == 20
    &&& levels.len() < 20 ==> entries.len() == levels.len()
    &&& forall|i: int| 0 <= i < entries.len() ==> (#[trigger] levels[i]).len() >= 2
    &&& forall|i: int|
        0 <= i < entries.len() ==> (#[trigger] entries[i])@ == (OrderBookEntryView {
            price: levels[i][0]@,
            quantity: levels[i][1]@,
        })
}

/// One side of the book from the levels of a depth answer: the first
/// [`DEPTH_LIMIT`] levels, each as an entry, in the order given. Levels past
/// the limit are not looked at.
pub fn top_levels(levels: &Vec<Vec<String>>) -> (side: Result<Vec<OrderBookEntry>, FeedError>)
    ensures
        modeled(side) == book_side(levels.deep_view()),
        side matches Ok(entries) ==> shows_top_of(entries, levels),
{
    let n = if levels.len() <= DEPTH_LIMIT {
        levels.len()
    } else {
        DEPTH_LIMIT
    };
    let mut entries: Vec<OrderBookEntry> = Vec::new();
    let mut i: usize = 0;
    while i < n
        invariant
            i <= n,
            n == kept(levels.len() as nat),
            entries.len() == i,
            forall|j: int| 0 <= j < i ==> (#[trigger] levels[j]).len() >= 2,
            forall|j: int|
                0 <= j < i ==> (#[trigger] entries[j])@ == (OrderBookEntryView {
                    price: levels[j][0]@,
                    quantity: levels[j][1]@,
                }),
        decreases n - i,
    {
        let level = &levels[i];
        if level.len() < 2 {
            assert(levels.deep_view()[i as int].len() < 2);
            return Err(FeedError::Decode);
        }
        entries.push(OrderBookEntry { price: level[0].clone(), quantity: level[1].clone() });
        i += 1;
    }
    assert forall|j: int| 0 <= j < n implies (#[trigger] levels.deep_view()[j]).len() >= 2 by {
        assert(levels[j].len() >= 2);
    }
    assert(entries.deep_view() =~= top_entries(levels.deep_view()));
    Ok(entries)
}

/// The ask side of the book: the first [`DEPTH_LIMIT`] ask levels of
/// `response`, in the exchange's order, every price and quantity the text
/// that the answer held.
pub fn huobi_asks(response: &DepthResponse) -> (asks: Result<Vec<OrderBookEntry>, FeedError>)
    ensures
        modeled(asks) == book_side(response@.asks),
        asks matches Ok(entries) ==> shows_top_of(entries, &response.tick.asks),
{
    top_levels(&response.tick.asks)
}

/// The bid side of the book: the first [`DEPTH_LIMIT`] bid levels of
/// `response`, in the exchange's order, every price and quantity the text
/// that the answer held.
pub fn huobi_bids(response: &DepthResponse) -> (bids: Result<Vec<OrderBookEntry>, FeedError>)
    ensures
        modeled(bids) == book_side(response@.bids),
        bids matches Ok(entries) ==> shows_top_of(entries, &response.tick.bids),
{
    top_levels(&response.tick.bids)
}

/// The model of a whole book made from one depth answer: both sides, or a
/// decode failure where either side has none.
pub open spec fn book_of(depth: DepthView) -> Result<OrderBookView, FeedError> {
    match (book_side(depth.asks), book_side(depth.bids)) {
        (Ok(asks), Ok(bids)) => Ok(OrderBookView { asks, bids }),
        _ => Err(FeedError::Decode),
    }
}

/// Both sides of the book from one depth answer, so that asks and bids show
/// the same moment.
pub fn huobi_order_book(response: &DepthResponse) -> (book: Result<OrderBook, FeedError>)
    ensures
        modeled(book) == book_of(response@),
        book matches Ok(sides) ==> sides.well_formed(),
{
    let asks = top_levels(&response.tick.asks)?;
    let bids = top_levels(&response.tick.bids)?;
    Ok(OrderBook { asks, bids })
}

/// A price query gives the same price each time it is made on one answer:
/// two outcomes agree in whether they failed, in the failure and in the
/// price. Only the time of the price point, the time of the fetch, may
/// differ.
pub proof fn lemma_price_is_repeatable(
    prices: Seq<Seq<char>>,
    first_time: Seq<char>,
    second_time: Seq<char>,
)
    ensures
        latest_price(prices, first_time) is Ok <==> latest_price(prices, second_time) is Ok,
        latest_price(prices, first_time) is Ok ==> latest_price(prices, first_time)->Ok_0.price
            == latest_price(prices, second_time)->Ok_0.price,
        latest_price(prices, first_time) is Err ==> latest_price(prices, first_time)
            == latest_price(prices, second_time),
{
}

/// A trades query gives the same records each time it is made on one
/// answer, text for text.
pub proof fn lemma_trades_are_repeatable(
    listed: Seq<TradeView>,
    first: Seq<BtcTradeView>,
    second: Seq<BtcTradeView>,
)
    requires
        first == normalized_trades(listed),
        second == normalized_trades(listed),
    ensures
        first == second,
        first.len() == listed.len(),
{
}

/// An asks or bids query gives the same outcome each time it is made on one
/// answer: the same entries, text for text, or the same failure.
pub proof fn lemma_book_side_is_repeatable(
    levels: Seq<Seq<Seq<char>>>,
    first: Result<Seq<OrderBookEntryView>, FeedError>,
    second: Result<Seq<OrderBookEntryView>, FeedError>,
)
    requires
        first == book_side(levels),
        second == book_side(levels),
    ensures
        first == second,
{
}

/// A side of the book never holds more than twenty entries. It holds
/// exactly twenty where the answer has twenty levels or more, all of them
/// where it has fewer, and entry `i` is made of level `i`: nothing is
/// reordered.
pub proof fn lemma_book_side_keeps_top(levels: Seq<Seq<Seq<char>>>)
    requires
        book_side(levels) is Ok,
    ensures
        book_side(levels)->Ok_0.len() <= DEPTH_LIMIT,
        levels.len() >= DEPTH_LIMIT ==> book_side(levels)->Ok_0.len() == DEPTH_LIMIT,
        levels.len() < DEPTH_LIMIT ==> book_side(levels)->Ok_0.len() == levels.len(),
        forall|i: int|
            0 <= i < book_side(levels)->Ok_0.len() ==> #[trigger] book_side(levels)->Ok_0[i]
                == level_entry(levels[i]),
{
}

} // verus!
