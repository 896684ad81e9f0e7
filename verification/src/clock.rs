use crate::error::FeedError;
use vstd::prelude::*;

verus! {

/// The format in which the time of a price point is read back: a calendar
/// date, a space, the time of day, and then, if a dot follows the seconds,
/// a decimal fraction of a second.
pub const PRICE_TIME_FORMAT: &'static str = "%Y-%m-%d %H:%M:%S%.f";

/// A point in time: whole seconds since 1970-01-01 00:00:00 UTC, and the
/// nanoseconds since the last whole second. During a leap second the
/// nanoseconds run on past 999,999,999.
#[derive(Clone, Copy, Debug, PartialEq, Eq, Structural)]
pub struct Timestamp {
    pub seconds: i64,
    pub nanoseconds: u32,
}

/// `chrono::ParseError`: why chrono read no date and time. It is carried,
/// never looked into.
#[verifier::external_type_specification]
#[verifier::external_body]
pub struct ExParseError(chrono::ParseError);

/// The text that chrono prints for the UTC date and time that lies `seconds`
/// whole seconds after 1970-01-01 00:00:00 UTC, or `None` where chrono's
/// calendar does not reach that far.
pub uninterp spec fn utc_datetime_text(seconds: i64) -> Option<Seq<char>>;

/// The point in time that chrono reads from `text` under the strftime
/// pattern `format`, as seconds and nanoseconds, or `None` where it reads
/// none.
pub uninterp spec fn naive_datetime_parse(text: Seq<char>, format: Seq<char>) -> Option<(i64, u32)>;

/// `chrono::TimeZone::timestamp_opt` on `chrono::Utc`, with no nanoseconds,
/// printed by the `Display` of `chrono::DateTime<Utc>`.
///
/// Trusted: the text depends on `seconds` alone, and chrono can place the
/// epoch itself, second 0, on its calendar.
#[verifier::external_body]
fn utc_text_at(seconds: i64) -> (text: Option<String>)
    ensures
        text matches Some(t) ==> utc_datetime_text(seconds) == Some(t@),
        text is None ==> utc_datetime_text(seconds) is None,
        seconds == 0 ==> text is Some,
{
    let at = chrono::TimeZone::timestamp_opt(&chrono::Utc, seconds, 0).single()?;
    Some(at.to_string())
}

/// `chrono::NaiveDateTime::parse_from_str`, the date and time it reads
/// handed back as a [`Timestamp`].
///
/// Trusted, and for the one pattern [`PRICE_TIME_FORMAT`] only: whether a
/// point in time is read, and which, depends on the text alone, and chrono
/// returns on every text.
#[verifier::external_body]
fn parse_naive_datetime(text: &str, format: &str) -> (parsed: Result<Timestamp, chrono::ParseError>)
    requires
        format@ == PRICE_TIME_FORMAT@,
    ensures
        parsed matches Ok(at) ==> naive_datetime_parse(text@, format@) == Some(
            (at.seconds, at.nanoseconds),
        ),
        parsed is Err ==> naive_datetime_parse(text@, format@) is None,
{
    let at = chrono::NaiveDateTime::parse_from_str(text, format)?.and_utc();
    Ok(Timestamp { seconds: at.timestamp(), nanoseconds: at.timestamp_subsec_nanos() })
}

/// The whole seconds in a count of milliseconds.
pub open spec fn whole_seconds(millis: u64) -> i64 {
    (millis / 1000) as i64
}

/// The whole seconds in `millis` milliseconds. The remainder is dropped.
pub fn epoch_seconds(millis: u64) -> (seconds: i64)
    ensures
        seconds == whole_seconds(millis),
        seconds == millis as int / 1000,
{
    (millis / 1000) as i64
}

/// The time text of a trade that the exchange stamped `millis` milliseconds
/// after the epoch: the UTC date and time of its whole seconds, or that of
/// the epoch itself where the calendar does not reach the trade's second.
pub open spec fn trade_time_text(millis: u64) -> Seq<char> {
    text_or_origin(utc_datetime_text(whole_seconds(millis)), utc_datetime_text(0).unwrap())
}

/// The converted text where there is one, the origin's text otherwise.
pub open spec fn text_or_origin(converted: Option<Seq<char>>, origin: Seq<char>) -> Seq<char> {
    match converted {
        Some(text) => text,
        None => origin,
    }
}

/// The text of the epoch itself: second 0.
pub fn epoch_origin_text() -> (origin: String)
    ensures
        utc_datetime_text(0) == Some(origin@),
{
    utc_text_at(0).unwrap()
}

/// Settles on a time text: `converted` where a conversion was made, `origin`
/// where none was.
pub fn timestamp_or_origin(converted: Option<String>, origin: &String) -> (text: String)
    ensures
        text@ == text_or_origin(
            match converted {
                Some(t) => Some(t@),
                None => None,
            },
            origin@,
        ),
{
    match converted {
        Some(text) => text,
        None => origin.clone(),
    }
}

/// The time text of a trade stamped `millis` milliseconds after the epoch.
pub fn trade_timestamp(millis: u64) -> (text: String)
    ensures
        text@ == trade_time_text(millis),
{
    let origin = epoch_origin_text();
    let converted = utc_text_at(epoch_seconds(millis));
    timestamp_or_origin(converted, &origin)
}

/// What reading a price point's time gives: the point in time that chrono
/// reads from the text under [`PRICE_TIME_FORMAT`], or a parse failure.
pub open spec fn price_time_of(text: Seq<char>) -> Result<Timestamp, FeedError> {
    match naive_datetime_parse(text, PRICE_TIME_FORMAT@) {
        Some(at) => Ok(Timestamp { seconds: at.0, nanoseconds: at.1 }),
        None => Err(FeedError::TimestampParse),
    }
}

/// Maps the outcome of a parse to the library's own: the time that was read,
/// or [`FeedError::TimestampParse`] whatever chrono objected to.
pub fn checked_time(parsed: Result<Timestamp, chrono::ParseError>) -> (time: Result<
    Timestamp,
    FeedError,
>)
    ensures
        parsed matches Ok(at) ==> time == Ok::<Timestamp, FeedError>(at),
        parsed is Err ==> time == Err::<Timestamp, FeedError>(FeedError::TimestampParse),
{
    match parsed {
        Ok(at) => Ok(at),
        Err(_) => Err(FeedError::TimestampParse),
    }
}

/// Reads the time of a price point back from its text.
pub fn parse_price_time(text: &str) -> (time: Result<Timestamp, FeedError>)
    ensures
        time == price_time_of(text@),
{
    checked_time(parse_naive_datetime(text, PRICE_TIME_FORMAT))
}

} // verus!
