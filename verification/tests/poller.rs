use market_feed::{
    next_action, rest, store_or_rest, BtcPrice, FeedError, PollAction, PollEvent, Timestamp,
    POLL_DELAY_SECONDS,
};

fn price(time: &str) -> BtcPrice {
    BtcPrice { price: "64012.5".to_string(), time: time.to_string() }
}

#[test]
fn the_delay_is_two_seconds() {
    assert_eq!(POLL_DELAY_SECONDS, 2);
    assert_eq!(rest(None), PollAction::Rest { seconds: 2, report: None });
}

#[test]
fn a_started_loop_fetches() {
    assert_eq!(next_action(PollEvent::Started), PollAction::Fetch);
}

#[test]
fn a_fetched_price_is_stored_under_its_time() {
    let action = next_action(PollEvent::Fetched(Ok(price("2023-11-14 22:13:20.123456789"))));
    assert_eq!(
        action,
        PollAction::Store {
            timestamp: Timestamp { seconds: 1_700_000_000, nanoseconds: 123_456_789 },
            price: "64012.5".to_string(),
        }
    );
}

#[test]
fn a_price_with_an_unreadable_time_is_skipped_and_the_loop_rests() {
    let action = next_action(PollEvent::Fetched(Ok(price("about noon"))));
    assert_eq!(
        action,
        PollAction::Rest { seconds: 2, report: Some(FeedError::TimestampParse) }
    );
}

#[test]
fn a_failed_fetch_is_reported_and_the_loop_rests() {
    for failure in [FeedError::Network, FeedError::Decode, FeedError::EmptyData] {
        assert_eq!(
            next_action(PollEvent::Fetched(Err(failure))),
            PollAction::Rest { seconds: 2, report: Some(failure) }
        );
    }
}

#[test]
fn a_stored_row_is_followed_by_a_rest_without_report() {
    assert_eq!(
        next_action(PollEvent::Stored { accepted: true }),
        PollAction::Rest { seconds: 2, report: None }
    );
}

#[test]
fn a_refused_row_is_reported_and_the_loop_fetches_again() {
    let action = next_action(PollEvent::Stored { accepted: false });
    assert_eq!(action, PollAction::Rest { seconds: 2, report: Some(FeedError::Persistence) });
    assert_eq!(next_action(PollEvent::Rested), PollAction::Fetch);
}

#[test]
fn store_or_rest_goes_by_the_reading_of_the_time() {
    let at = Timestamp { seconds: 5, nanoseconds: 6 };
    assert_eq!(
        store_or_rest(price("t"), Ok(at)),
        PollAction::Store { timestamp: at, price: "64012.5".to_string() }
    );
    assert_eq!(
        store_or_rest(price("t"), Err(FeedError::TimestampParse)),
        PollAction::Rest { seconds: 2, report: Some(FeedError::TimestampParse) }
    );
}

#[test]
fn a_loop_runs_cycle_after_cycle() {
    let mut action = next_action(PollEvent::Started);
    let mut fetches = 0;
    let mut stored = 0;
    let mut reports = Vec::new();
    for step in 0..40 {
        let event = match action {
            PollAction::Fetch => {
                fetches += 1;
                if fetches % 3 == 0 {
                    PollEvent::Fetched(Err(FeedError::Network))
                } else {
                    PollEvent::Fetched(Ok(price("2023-11-14 22:13:20")))
                }
            }
            PollAction::Store { .. } => {
                stored += 1;
                PollEvent::Stored { accepted: step % 2 == 0 }
            }
            PollAction::Rest { seconds, report } => {
                assert_eq!(seconds, 2);
                if let Some(failure) = report {
                    reports.push(failure);
                }
                PollEvent::Rested
            }
        };
        action = next_action(event);
    }
    assert!(fetches >= 10);
    assert!(stored >= 6);
    assert!(reports.contains(&FeedError::Network));
}
