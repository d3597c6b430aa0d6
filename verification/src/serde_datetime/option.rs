//! An optional expiry timestamp: `None` is written and read as null, a
//! timestamp as its RFC 3339 text.

use crate::serde_datetime::{
    described_reading, format_rfc3339_text, legacy_description, parse_rfc3339_or_legacy, rfc3339_or_legacy_reading, rfc3339_reading,
    rfc3339_writing, DateTimeError, OffsetTimestamp,
};
use vstd::prelude::*;

verus! {

/// The text to write for an optional timestamp: `None` for null, else its
/// RFC 3339 text.
pub fn serialize(opt: &Option<OffsetTimestamp>) -> (res: Result<Option<String>, DateTimeError>)
    ensures
        match *opt {
            None => res matches Ok(None),
            Some(t) => match rfc3339_writing(t) {
                Some(text) => (res matches Ok(Some(s)) && s@ == text && rfc3339_reading(s@) == Some(t)),
                None => (res matches Err(e) && e is Unwritable),
            },
        },
{
    match opt {
        Some(t) => match format_rfc3339_text(*t) {
            Ok(s) => Ok(Some(s)),
            Err(e) => Err(e),
        },
        None => Ok(None),
    }
}

/// The optional timestamp read from optional text: null gives `None`, text
/// is read as RFC 3339 or else in the legacy layout.
pub fn deserialize(opt: Option<&str>) -> (res: Result<Option<OffsetTimestamp>, DateTimeError>)
    ensures
        match opt {
            None => res matches Ok(None),
            Some(s) => match rfc3339_or_legacy_reading(s@) {
                Some(t) => res == Ok::<Option<OffsetTimestamp>, DateTimeError>(Some(t)),
                None => (res matches Err(e) && e is Unreadable),
            },
        },
        match opt {
            Some(s) => {
                &&& rfc3339_reading(s@) matches Some(t) ==> res == Ok::<
                    Option<OffsetTimestamp>,
                    DateTimeError,
                >(Some(t))
                &&& rfc3339_reading(s@) is None ==> match described_reading(s@, legacy_description()) {
                    Some(t) => res == Ok::<Option<OffsetTimestamp>, DateTimeError>(Some(t)),
                    None => res is Err,
                }
            },
            None => true,
        },
{
    match opt {
        Some(s) => match parse_rfc3339_or_legacy(s) {
            Ok(t) => Ok(Some(t)),
            Err(e) => Err(e),
        },
        None => Ok(None),
    }
}

/// What `serialize` writes, `deserialize` reads back: a text whose RFC 3339
/// reading is `t` (as `serialize` promises of the text it writes for `t`)
/// is read as `t`.
pub proof fn lemma_written_text_reads_back(t: OffsetTimestamp, text: Seq<char>)
    requires
        rfc3339_reading(text) == Some(t),
    ensures
        rfc3339_or_legacy_reading(text) == Some(t),
{
}

} // verus!
