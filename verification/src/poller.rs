use crate::clock::{parse_price_time, price_time_of, Timestamp};
use crate::error::FeedError;
use crate::records::{BtcPrice, BtcPriceView};
use vstd::prelude::*;

verus! {

/// The pause between two cycles of a polling loop, in seconds. It is the
/// same after a cycle that failed as after one that stored its sample.
pub const POLL_DELAY_SECONDS: u64 = 2;

/// What a polling loop has just seen.
#[derive(Debug, PartialEq, Eq)]
pub enum PollEvent {
    /// The loop was started.
    Started,
    /// The price query came back.
    Fetched(Result<BtcPrice, FeedError>),
    /// The store answered an insert: it took the row, or it did not.
    Stored { accepted: bool },
    /// The pause is over.
    Rested,
}

/// What a polling loop does next.
#[derive(Debug, PartialEq, Eq)]
pub enum PollAction {
    /// Ask the exchange for the current price.
    Fetch,
    /// Insert one row into the time-series store.
    Store { timestamp: Timestamp, price: String },
    /// Write `report` to the process log where there is one, then pause.
    Rest { seconds: u64, report: Option<FeedError> },
}

/// What a [`PollAction`] says.
pub enum PollActionView {
    Fetch,
    Store { timestamp: Timestamp, price: Seq<char> },
    Rest { seconds: u64, report: Option<FeedError> },
}

impl View for PollAction {
    type V = PollActionView;

    open spec fn view(&self) -> PollActionView {
        match *self {
            PollAction::Fetch => PollActionView::Fetch,
            PollAction::Store { timestamp, price } => PollActionView::Store {
                timestamp,
                price: price@,
            },
            PollAction::Rest { seconds, report } => PollActionView::Rest { seconds, report },
        }
    }
}

/// The pause that ends a cycle, with what went wrong in it, if anything.
pub open spec fn rest_after(report: Option<FeedError>) -> PollActionView {
    PollActionView::Rest { seconds: POLL_DELAY_SECONDS, report }
}

/// What follows a price point whose time text was read as `time`: the row
/// is stored where a point in time was read; where none was, the rest of the
/// cycle is skipped and the loop pauses.
pub open spec fn after_price(price: BtcPriceView, time: Result<Timestamp, FeedError>) -> PollActionView {
    match time {
        Ok(timestamp) => PollActionView::Store { timestamp, price: price.price },
        Err(failure) => rest_after(Some(failure)),
    }
}

/// What follows the answer of a price query.
pub open spec fn after_fetch(outcome: Result<BtcPrice, FeedError>) -> PollActionView {
    match outcome {
        Ok(price) => after_price(price@, price_time_of(price.time@)),
        Err(failure) => rest_after(Some(failure)),
    }
}

/// What follows the answer of the store.
pub open spec fn after_store(accepted: bool) -> PollActionView {
    if accepted {
        rest_after(None)
    } else {
        rest_after(Some(FeedError::Persistence))
    }
}

/// The one rule of a polling loop: what it does after each thing it sees.
/// No event ends the loop.
pub open spec fn planned(event: PollEvent) -> PollActionView {
    match event {
        PollEvent::Started => PollActionView::Fetch,
        PollEvent::Fetched(outcome) => after_fetch(outcome),
        PollEvent::Stored { accepted } => after_store(accepted),
        PollEvent::Rested => PollActionView::Fetch,
    }
}

/// Ends a cycle: pause for [`POLL_DELAY_SECONDS`], reporting `report` first
/// where there is one.
pub fn rest(report: Option<FeedError>) -> (action: PollAction)
    ensures
        action@ == rest_after(report),
{
    PollAction::Rest { seconds: POLL_DELAY_SECONDS, report }
}

/// Decides what follows a price point, given the reading of its time text.
pub fn store_or_rest(price: BtcPrice, time: Result<Timestamp, FeedError>) -> (action: PollAction)
    ensures
        action@ == after_price(price@, time),
{
    match time {
        Ok(timestamp) => PollAction::Store { timestamp, price: price.price },
        Err(failure) => rest(Some(failure)),
    }
}

/// Decides what a polling loop does next.
pub fn next_action(event: PollEvent) -> (action: PollAction)
    ensures
        action@ == planned(event),
{
    match event {
        PollEvent::Started => PollAction::Fetch,
        PollEvent::Fetched(outcome) => match outcome {
            Ok(price) => {
                let time = parse_price_time(price.time.as_str());
                store_or_rest(price, time)
            },
            Err(failure) => rest(Some(failure)),
        },
        PollEvent::Stored { accepted } => {
            if accepted {
                rest(None)
            } else {
                rest(Some(FeedError::Persistence))
            }
        },
        PollEvent::Rested => PollAction::Fetch,
    }
}

/// A polling loop outlives every failure: whatever a cycle reports, the
/// loop pauses for the fixed delay, and after the pause it fetches again.
pub proof fn lemma_failure_leads_to_next_fetch(event: PollEvent)
    requires
        planned(event) matches PollActionView::Rest { report, .. } && report is Some,
    ensures
        planned(event) matches PollActionView::Rest { seconds, .. } && seconds
            == POLL_DELAY_SECONDS,
        planned(PollEvent::Rested) == PollActionView::Fetch,
{
}

/// Every failure of a cycle is reported and none is fatal: a failed query,
/// a time text that does not read back, and a refused insert each lead to a
/// pause that carries the failure.
pub proof fn lemma_failures_are_reported(event: PollEvent)
    ensures
        event matches PollEvent::Fetched(Err(failure)) ==> planned(event) == rest_after(
            Some(failure),
        ),
        event matches PollEvent::Fetched(Ok(price)) && price_time_of(price.time@) is Err
            ==> planned(event) == rest_after(Some(FeedError::TimestampParse)),
        event == (PollEvent::Stored { accepted: false }) ==> planned(event) == rest_after(
            Some(FeedError::Persistence),
        ),
{
}

} // verus!
