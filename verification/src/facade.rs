use crate::clock::{parse_price_time, price_time_of, Timestamp};
use crate::error::FeedError;
use crate::records::BtcPrice;
use vstd::prelude::*;

verus! {

/// The status of an answer that carries a record.
pub const STATUS_OK: u16 = 200;

/// The status of every answer that carries none.
pub const STATUS_INTERNAL_SERVER_ERROR: u16 = 500;

/// What a route answers: a status, the record to serialise where there is
/// one, and the failure to write to the process log where there is none.
/// A failure never reaches the client: an answer with a failure has no body.
#[derive(Debug, PartialEq, Eq)]
pub struct Reply<T> {
    pub status: u16,
    pub body: Option<T>,
    pub logged: Option<FeedError>,
}

/// The answer to a query that ended in `outcome`.
pub open spec fn reply_to<T>(outcome: Result<T, FeedError>) -> Reply<T> {
    match outcome {
        Ok(record) => Reply { status: STATUS_OK, body: Some(record), logged: None },
        Err(failure) => Reply {
            status: STATUS_INTERNAL_SERVER_ERROR,
            body: None,
            logged: Some(failure),
        },
    }
}

/// Answers a query: its record under status 200, or status 500 without a
/// body, the failure kept for the log. The record is not looked into.
pub fn respond<T>(outcome: Result<T, FeedError>) -> (reply: Reply<T>)
    ensures
        reply == reply_to(outcome),
{
    match outcome {
        Ok(record) => Reply { status: STATUS_OK, body: Some(record), logged: None },
        Err(failure) => Reply {
            status: STATUS_INTERNAL_SERVER_ERROR,
            body: None,
            logged: Some(failure),
        },
    }
}

/// The outcome of a price query once its time was read back: the price
/// point where the time was read, the failure to read it otherwise.
pub open spec fn timed_price(price: BtcPrice, time: Result<Timestamp, FeedError>) -> Result<
    BtcPrice,
    FeedError,
> {
    match time {
        Ok(_) => Ok(price),
        Err(failure) => Err(failure),
    }
}

/// Passes a price point on where `time`, the reading of its time text, is a
/// point in time, and fails as the reading did where it is not.
pub fn price_with_time(price: BtcPrice, time: Result<Timestamp, FeedError>) -> (checked: Result<
    BtcPrice,
    FeedError,
>)
    ensures
        checked == timed_price(price, time),
{
    match time {
        Ok(_) => Ok(price),
        Err(failure) => Err(failure),
    }
}

/// The outcome of a price query as the Kraken price route sees it: a price
/// point counts only if its time reads back as a point in time.
pub open spec fn checked_price(outcome: Result<BtcPrice, FeedError>) -> Result<BtcPrice, FeedError> {
    match outcome {
        Ok(price) => timed_price(price, price_time_of(price.time@)),
        Err(failure) => Err(failure),
    }
}

/// Answers a price query on the Kraken route, and on that route alone: a
/// price point whose time does not read back as a point in time is answered
/// like a failed query. Every other route, the Huobi and Binance price
/// routes among them, answers with [`respond`]: there each price point is a
/// success, whatever its time text.
pub fn respond_price(outcome: Result<BtcPrice, FeedError>) -> (reply: Reply<BtcPrice>)
    ensures
        reply == reply_to(checked_price(outcome)),
{
    match outcome {
        Ok(price) => {
            let time = parse_price_time(price.time.as_str());
            respond(price_with_time(price, time))
        },
        Err(failure) => respond(Err(failure)),
    }
}

/// Where the time of a price point reads back, the Kraken route answers as
/// every other route does; where the query failed, it does so too. The two
/// rules part only on a price point whose time does not read back.
pub proof fn lemma_price_routes_agree(outcome: Result<BtcPrice, FeedError>)
    requires
        outcome matches Ok(price) ==> price_time_of(price.time@) is Ok,
    ensures
        reply_to(checked_price(outcome)) == reply_to(outcome),
{
}

} // verus!
