//! Reading the timestamps that the store sends.

use vstd::prelude::*;
use vstd::string::StrSliceExecFns;
use vstd::string::StringExecFns;
use crate::store::error::StoreError;

verus! {

/// An instant: whole seconds since the Unix epoch, in UTC, and the
/// nanoseconds past them.
#[derive(Clone, Copy, Debug, PartialEq, Eq, Structural)]
pub struct Timestamp {
    pub secs: i64,
    pub nanos: u32,
}

#[verifier::external_type_specification]
#[verifier::external_body]
pub struct ExParseError(chrono::ParseError);

/// The instant that `chrono::DateTime::parse_from_str` reads from `text`
/// under `format`, as seconds since the epoch and nanoseconds; `None` where
/// it reports an error.
pub uninterp spec fn formatted_instant(text: Seq<char>, format: Seq<char>) -> Option<(int, int)>;

/// The instant that `chrono::DateTime::parse_from_rfc3339` reads from `text`,
/// as seconds since the epoch and nanoseconds; `None` where it reports an
/// error.
pub uninterp spec fn rfc3339_instant(text: Seq<char>) -> Option<(int, int)>;

/// Calls `chrono::DateTime::parse_from_str` and takes the instant out of
/// the result with `timestamp` and `timestamp_subsec_nanos`. Trusted: the
/// result is the instant named by `formatted_instant`, an error where that
/// is `None`.
#[verifier::external_body]
fn parse_formatted(text: &str, format: &str) -> (r: Result<Timestamp, chrono::ParseError>)
    ensures
        r is Ok <==> formatted_instant(text@, format@) is Some,
        r matches Ok(t) ==> formatted_instant(text@, format@) == Some((t.secs as int, t.nanos as int)),
{
    chrono::DateTime::parse_from_str(text, format).map(
        |t| Timestamp { secs: t.timestamp(), nanos: t.timestamp_subsec_nanos() },
    )
}

/// Calls `chrono::DateTime::parse_from_rfc3339` and takes the instant out
/// of the result with `timestamp` and `timestamp_subsec_nanos`. Trusted: the
/// result is the instant named by `rfc3339_instant`, an error where that is
/// `None`.
#[verifier::external_body]
fn parse_rfc3339_text(text: &str) -> (r: Result<Timestamp, chrono::ParseError>)
    ensures
        r is Ok <==> rfc3339_instant(text@) is Some,
        r matches Ok(t) ==> rfc3339_instant(text@) == Some((t.secs as int, t.nanos as int)),
{
    chrono::DateTime::parse_from_rfc3339(text).map(
        |t| Timestamp { secs: t.timestamp(), nanos: t.timestamp_subsec_nanos() },
    )
}

/// The zone token that ends an HTTP date.
pub open spec fn zone_token() -> Seq<char> {
    seq!['G', 'M', 'T']
}

/// The numeric offset that stands for the zone token.
pub open spec fn zone_offset() -> Seq<char> {
    seq!['+', '0', '0', '0', '0']
}

/// The format of an HTTP date whose zone is a numeric offset:
/// `%a, %d %b %Y %H:%M:%S %z`.
pub open spec fn http_date_format() -> Seq<char> {
    seq![
        '%', 'a', ',', ' ', '%', 'd', ' ', '%', 'b', ' ', '%', 'Y', ' ', '%', 'H', ':', '%',
        'M', ':', '%', 'S', ' ', '%', 'z',
    ]
}

/// Whether `text` ends with the zone token.
pub open spec fn ends_with_zone(text: Seq<char>) -> bool {
    text.len() >= 3 && text.subrange(text.len() - 3, text.len() as int) == zone_token()
}

/// `text` with the zone token at its end replaced by the numeric offset;
/// `None` where it does not end with the token.
pub open spec fn normalized(text: Seq<char>) -> Option<Seq<char>> {
    if ends_with_zone(text) {
        Some(text.subrange(0, text.len() - 3) + zone_offset())
    } else {
        None
    }
}

/// The instant of an HTTP date: of its normalized text under the format of
/// HTTP dates; `None` where the text is malformed.
pub open spec fn http_date_instant(text: Seq<char>) -> Option<(int, int)> {
    match normalized(text) {
        Some(numeric) => formatted_instant(numeric, http_date_format()),
        None => None,
    }
}

/// What reading a timestamp gives: the instant, or the text as the error.
pub open spec fn read_as(text: String, instant: Option<(int, int)>) -> Result<
    Timestamp,
    StoreError,
> {
    match instant {
        Some((secs, nanos)) => Ok(Timestamp { secs: secs as i64, nanos: nanos as u32 }),
        None => Err(StoreError::MalformedTimestamp(text)),
    }
}

/// Replaces the zone token at the end of an HTTP date by the numeric
/// offset.
pub fn normalize_http_date(text: &str) -> (r: Option<String>)
    ensures
        r is Some <==> normalized(text@) is Some,
        r matches Some(numeric) ==> Some(numeric@) == normalized(text@),
{
    let len = text.unicode_len();
    if len < 3 {
        return None;
    }
    if text.get_char(len - 3) != 'G' || text.get_char(len - 2) != 'M' || text.get_char(len - 1)
        != 'T' {
        proof {
            let tail = text@.subrange(text@.len() - 3, text@.len() as int);
            assert(tail[0] == text@[len - 3]);
            assert(tail[1] == text@[len - 2]);
            assert(tail[2] == text@[len - 1]);
        }
        return None;
    }
    proof {
        reveal_strlit("+0000");
        assert(text@.subrange(text@.len() - 3, text@.len() as int) =~= zone_token());
    }
    let mut numeric = String::from_str(text.substring_char(0, len - 3));
    numeric.append("+0000");
    assert("+0000"@ =~= zone_offset());
    Some(numeric)
}

/// Reads an HTTP date such as `Wed, 21 Oct 2015 07:28:00 GMT`.
pub fn parse_http_date(text: &String) -> (r: Result<Timestamp, StoreError>)
    ensures
        r == read_as(*text, http_date_instant(text@)),
{
    proof {
        reveal_strlit("%a, %d %b %Y %H:%M:%S %z");
        assert("%a, %d %b %Y %H:%M:%S %z"@ =~= http_date_format());
    }
    match normalize_http_date(text.as_str()) {
        None => Err(StoreError::MalformedTimestamp(text.clone())),
        Some(numeric) => match parse_formatted(numeric.as_str(), "%a, %d %b %Y %H:%M:%S %z") {
            Ok(instant) => Ok(instant),
            Err(_) => Err(StoreError::MalformedTimestamp(text.clone())),
        },
    }
}

/// Reads an RFC 3339 timestamp such as `2015-10-21T07:28:00.000Z`.
pub fn parse_rfc3339(text: &String) -> (r: Result<Timestamp, StoreError>)
    ensures
        r == read_as(*text, rfc3339_instant(text@)),
{
    match parse_rfc3339_text(text.as_str()) {
        Ok(instant) => Ok(instant),
        Err(_) => Err(StoreError::MalformedTimestamp(text.clone())),
    }
}

} // verus!
