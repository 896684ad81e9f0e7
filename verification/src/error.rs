use vstd::prelude::*;

verus! {

/// Why a query, a poll cycle or a route could not produce its record.
#[derive(Clone, Copy, Debug, PartialEq, Eq, Structural)]
pub enum FeedError {
    /// The request did not reach the exchange, or no answer came back.
    Network,
    /// The answer did not have the shape that the exchange documents.
    Decode,
    /// The exchange listed no entry where one was needed.
    EmptyData,
    /// A time text did not match the format of a price point's time.
    TimestampParse,
    /// The time-series store refused a row.
    Persistence,
}

impl FeedError {
    /// The name under which the failure is reported in the process log.
    pub fn label(&self) -> (name: &'static str)
        ensures
            name@ == self.label_text(),
    {
        match self {
            FeedError::Network => "network error",
            FeedError::Decode => "decode error",
            FeedError::EmptyData => "empty data",
            FeedError::TimestampParse => "timestamp parse error",
            FeedError::Persistence => "persistence error",
        }
    }

    pub open spec fn label_text(self) -> Seq<char> {
        match self {
            FeedError::Network => "network error"@,
            FeedError::Decode => "decode error"@,
            FeedError::EmptyData => "empty data"@,
            FeedError::TimestampParse => "timestamp parse error"@,
            FeedError::Persistence => "persistence error"@,
        }
    }
}

} // verus!
