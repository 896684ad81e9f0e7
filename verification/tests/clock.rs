use market_feed::{
    checked_time, epoch_origin_text, epoch_seconds, parse_price_time, timestamp_or_origin,
    trade_timestamp, FeedError, Timestamp, PRICE_TIME_FORMAT,
};

#[test]
fn epoch_seconds_drops_the_milliseconds() {
    assert_eq!(epoch_seconds(0), 0);
    assert_eq!(epoch_seconds(999), 0);
    assert_eq!(epoch_seconds(1_000), 1);
    assert_eq!(epoch_seconds(1_700_000_000_000), 1_700_000_000);
    assert_eq!(epoch_seconds(1_700_000_000_999), 1_700_000_000);
    assert_eq!(epoch_seconds(u64::MAX), 18_446_744_073_709_551);
}

#[test]
fn epoch_origin_is_the_first_second_of_1970() {
    assert_eq!(epoch_origin_text(), "1970-01-01 00:00:00 UTC");
}

#[test]
fn trade_timestamp_is_the_utc_date_and_time() {
    assert_eq!(trade_timestamp(1_700_000_000_000), "2023-11-14 22:13:20 UTC");
    assert_eq!(trade_timestamp(1_700_000_000_999), "2023-11-14 22:13:20 UTC");
    assert_eq!(trade_timestamp(1_431_648_000_000), "2015-05-15 00:00:00 UTC");
    assert_eq!(trade_timestamp(0), "1970-01-01 00:00:00 UTC");
    assert_eq!(trade_timestamp(86_399_999), "1970-01-01 23:59:59 UTC");
}

#[test]
fn trade_timestamp_falls_back_to_the_epoch() {
    assert_eq!(trade_timestamp(u64::MAX), "1970-01-01 00:00:00 UTC");
    assert_eq!(trade_timestamp(u64::MAX / 2), "1970-01-01 00:00:00 UTC");
}

#[test]
fn timestamp_or_origin_prefers_the_conversion() {
    let origin = "origin".to_string();
    assert_eq!(timestamp_or_origin(Some("converted".to_string()), &origin), "converted");
    assert_eq!(timestamp_or_origin(None, &origin), "origin");
}

#[test]
fn price_time_reads_back_with_a_fraction_of_any_length() {
    assert_eq!(
        parse_price_time("2023-11-14 22:13:20.123456"),
        Ok(Timestamp { seconds: 1_700_000_000, nanoseconds: 123_456_000 })
    );
    assert_eq!(
        parse_price_time("2023-11-14 22:13:20.123456789"),
        Ok(Timestamp { seconds: 1_700_000_000, nanoseconds: 123_456_789 })
    );
    assert_eq!(
        parse_price_time("2023-11-14 22:13:20.5"),
        Ok(Timestamp { seconds: 1_700_000_000, nanoseconds: 500_000_000 })
    );
}

#[test]
fn price_time_reads_back_without_a_fraction() {
    assert_eq!(
        parse_price_time("2023-11-14 22:13:20"),
        Ok(Timestamp { seconds: 1_700_000_000, nanoseconds: 0 })
    );
    assert_eq!(
        parse_price_time("1970-01-01 00:00:00"),
        Ok(Timestamp { seconds: 0, nanoseconds: 0 })
    );
    assert_eq!(
        parse_price_time("1969-12-31 23:59:59.25"),
        Ok(Timestamp { seconds: -1, nanoseconds: 250_000_000 })
    );
}

#[test]
fn price_time_that_does_not_match_is_a_parse_failure() {
    assert_eq!(parse_price_time(""), Err(FeedError::TimestampParse));
    assert_eq!(parse_price_time("yesterday"), Err(FeedError::TimestampParse));
    assert_eq!(parse_price_time("2023-11-14"), Err(FeedError::TimestampParse));
    assert_eq!(parse_price_time("2023-11-14T22:13:20"), Err(FeedError::TimestampParse));
    assert_eq!(parse_price_time("2023-11-14 22:13:20 UTC"), Err(FeedError::TimestampParse));
    assert_eq!(parse_price_time("2023-13-14 22:13:20"), Err(FeedError::TimestampParse));
    assert_eq!(parse_price_time("2023-11-14 24:00:00"), Err(FeedError::TimestampParse));
}

#[test]
fn checked_time_maps_every_objection_to_one_failure() {
    let at = Timestamp { seconds: 7, nanoseconds: 9 };
    assert_eq!(checked_time(Ok(at)), Ok(at));
    let too_short = chrono::NaiveDateTime::parse_from_str("", PRICE_TIME_FORMAT).unwrap_err();
    let invalid = chrono::NaiveDateTime::parse_from_str("x", PRICE_TIME_FORMAT).unwrap_err();
    assert_eq!(checked_time(Err(too_short)), Err(FeedError::TimestampParse));
    assert_eq!(checked_time(Err(invalid)), Err(FeedError::TimestampParse));
}

#[test]
fn price_time_format_is_date_time_and_optional_fraction() {
    assert_eq!(PRICE_TIME_FORMAT, "%Y-%m-%d %H:%M:%S%.f");
}
