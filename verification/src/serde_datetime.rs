//! Expiry timestamps as text: written in RFC 3339 (as MinIO writes them),
//! read from RFC 3339 or from the legacy human-readable layout that older
//! versions wrote.

pub mod option;

use vstd::prelude::*;

verus! {

#[verifier::external_type_specification]
#[verifier::external_body]
pub struct ExTimeError(time::Error);

/// A moment with the UTC offset it was written in: nanoseconds since the
/// Unix epoch, and the offset east of UTC in seconds.
#[derive(Clone, Copy, Debug, PartialEq, Eq)]
pub struct OffsetTimestamp {
    pub unix_nanos: i128,
    pub offset_seconds: i32,
}

/// The moment that `time` reads from `text` as RFC 3339, or `None` where it
/// refuses the text.
pub uninterp spec fn rfc3339_reading(text: Seq<char>) -> Option<OffsetTimestamp>;

/// The moment that `time` reads from `text` by the format description
/// `description`, or `None` where it refuses the description or the text.
pub uninterp spec fn described_reading(text: Seq<char>, description: Seq<char>) -> Option<OffsetTimestamp>;

/// The RFC 3339 text that `time` writes for `t`, or `None` where it cannot
/// write one (a year outside 0..=9999, an offset of 24 hours or more, or an
/// offset with a seconds part).
pub uninterp spec fn rfc3339_writing(t: OffsetTimestamp) -> Option<Seq<char>>;

/// Calls `time::OffsetDateTime::parse` with the well-known `Rfc3339` format
/// and reads the result's Unix nanoseconds and offset.
///
/// Claims: it succeeds exactly where the reading is defined (a name), and
/// then returns it.
#[verifier::external_body]
fn parse_rfc3339(text: &str) -> (res: Result<OffsetTimestamp, time::Error>)
    ensures
        res is Ok <==> rfc3339_reading(text@) is Some,
        res matches Ok(t) ==> rfc3339_reading(text@) == Some(t),
{
    let dt = time::OffsetDateTime::parse(text, &time::format_description::well_known::Rfc3339)?;
    Ok(OffsetTimestamp { unix_nanos: dt.unix_timestamp_nanos(), offset_seconds: dt.offset().whole_seconds() })
}

/// Calls `time::OffsetDateTime::parse` with the format that
/// `time::format_description::parse_owned::<2>` builds from `description`,
/// and reads the result's Unix nanoseconds and offset.
///
/// Claims: it succeeds exactly where the reading is defined (a name), and
/// then returns it.
#[verifier::external_body]
fn parse_described(text: &str, description: &str) -> (res: Result<OffsetTimestamp, time::Error>)
    ensures
        res is Ok <==> described_reading(text@, description@) is Some,
        res matches Ok(t) ==> described_reading(text@, description@) == Some(t),
{
    let format = time::format_description::parse_owned::<2>(description)?;
    let dt = time::OffsetDateTime::parse(text, &format)?;
    Ok(OffsetTimestamp { unix_nanos: dt.unix_timestamp_nanos(), offset_seconds: dt.offset().whole_seconds() })
}

/// Calls `time::OffsetDateTime::format` with the well-known `Rfc3339`
/// format, on the date-time that `t` denotes (built with
/// `OffsetDateTime::from_unix_timestamp_nanos`, `UtcOffset::from_whole_seconds`
/// and `checked_to_offset`; where the local time falls outside the years
/// `time` supports, it reports the year as the component that cannot be
/// written, as the formatter does for years outside 0..=9999).
///
/// Claims: it succeeds exactly where the writing is defined (a name), and
/// reading the text back as RFC 3339 gives `t`: the text holds the date,
/// the time to the nanosecond and the offset in hours and minutes, and the
/// writing is refused for offsets with a seconds part.
#[verifier::external_body]
fn format_rfc3339(t: OffsetTimestamp) -> (res: Result<String, time::Error>)
    ensures
        res is Ok <==> rfc3339_writing(t) is Some,
        res matches Ok(s) ==> rfc3339_writing(t) == Some(s@),
        res matches Ok(s) ==> rfc3339_reading(s@) == Some(t),
{
    let offset = time::UtcOffset::from_whole_seconds(t.offset_seconds)?;
    let instant = time::OffsetDateTime::from_unix_timestamp_nanos(t.unix_nanos)?;
    let local = instant.checked_to_offset(offset).ok_or(time::error::Format::InvalidComponent("year"))?;
    Ok(local.format(&time::format_description::well_known::Rfc3339)?)
}

/// Why a timestamp could not be read or written.
#[derive(Debug)]
pub enum DateTimeError {
    /// The text is neither RFC 3339 nor in the legacy layout.
    Unreadable(time::Error),
    /// The timestamp has no RFC 3339 form.
    Unwritable(time::Error),
}

/// The legacy layout, as a `time` format description (version 2).
pub open spec fn legacy_description() -> Seq<char> {
    "[year]-[month]-[day] [hour]:[minute]:[second].[subsecond] [offset_hour sign:mandatory]:[offset_minute]:[offset_second]"@
}

/// The format description of the legacy layout, such as
/// `2025-03-07 12:30:00.000000000 +00:00:00`.
pub fn legacy_format() -> (res: &'static str)
    ensures
        res@ == legacy_description(),
        res@ == "[year]-[month]-[day] [hour]:[minute]:[second].[subsecond] [offset_hour sign:mandatory]:[offset_minute]:[offset_second]"@,
{
    "[year]-[month]-[day] [hour]:[minute]:[second].[subsecond] [offset_hour sign:mandatory]:[offset_minute]:[offset_second]"
}

/// What is read from `text`: its RFC 3339 reading where there is one, else
/// its reading in the legacy layout.
pub open spec fn rfc3339_or_legacy_reading(text: Seq<char>) -> Option<OffsetTimestamp> {
    match rfc3339_reading(text) {
        Some(t) => Some(t),
        None => described_reading(text, legacy_description()),
    }
}

/// Text with an RFC 3339 reading is read that way, whether or not the legacy
/// layout also reads it; text without one is read exactly as the legacy
/// layout reads it, and is refused where that layout refuses it.
pub proof fn lemma_rfc3339_first_then_legacy(text: Seq<char>)
    ensures
        rfc3339_reading(text) is Some ==> rfc3339_or_legacy_reading(text) == rfc3339_reading(text),
        rfc3339_reading(text) is None ==> rfc3339_or_legacy_reading(text) == described_reading(
            text,
            "[year]-[month]-[day] [hour]:[minute]:[second].[subsecond] [offset_hour sign:mandatory]:[offset_minute]:[offset_second]"@,
        ),
{
}

/// Reads a timestamp written in RFC 3339, or failing that in the legacy
/// layout. The error is that of the legacy reading, as `Unreadable`.
pub fn parse_rfc3339_or_legacy(s: &str) -> (res: Result<OffsetTimestamp, DateTimeError>)
    ensures
        res is Ok <==> rfc3339_or_legacy_reading(s@) is Some,
        res matches Ok(t) ==> rfc3339_or_legacy_reading(s@) == Some(t),
        res matches Err(e) ==> e is Unreadable,
        rfc3339_reading(s@) matches Some(t) ==> res == Ok::<OffsetTimestamp, DateTimeError>(t),
        rfc3339_reading(s@) is None ==> match described_reading(s@, legacy_description()) {
            Some(t) => res == Ok::<OffsetTimestamp, DateTimeError>(t),
            None => res is Err,
        },
{
    match parse_rfc3339(s) {
        Ok(t) => Ok(t),
        Err(_) => match parse_described(s, legacy_format()) {
            Ok(t) => Ok(t),
            Err(e) => Err(DateTimeError::Unreadable(e)),
        },
    }
}

/// Writes a timestamp in RFC 3339. The error is the writer's, as
/// `Unwritable`.
pub fn format_rfc3339_text(t: OffsetTimestamp) -> (res: Result<String, DateTimeError>)
    ensures
        res matches Err(e) ==> e is Unwritable,
        res is Ok <==> rfc3339_writing(t) is Some,
        res matches Ok(s) ==> rfc3339_writing(t) == Some(s@),
        res matches Ok(s) ==> rfc3339_reading(s@) == Some(t),
{
    match format_rfc3339(t) {
        Ok(s) => Ok(s),
        Err(e) => Err(DateTimeError::Unwritable(e)),
    }
}

} // verus!
