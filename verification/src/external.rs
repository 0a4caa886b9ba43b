//! Trusted items: the calls into outside crates and the std functions that
//! vstd does not specify. Each contract here is believed, not proved.

use vstd::prelude::*;

verus! {

/// A JSON value of `serde_json`, carried through the library as an opaque value.
#[verifier::external_type_specification]
#[verifier::external_body]
pub struct ExJsonValue(serde_json::Value);

/// Copies a JSON value with `serde_json::Value::clone` (a derived `Clone`, so
/// the copy is the same value).
#[verifier::external_body]
pub(crate) fn clone_json_value(v: &serde_json::Value) -> (r: serde_json::Value)
    ensures
        r == *v,
{
    v.clone()
}

/// A lower-case hexadecimal digit.
pub open spec fn is_lower_hex(c: char) -> bool {
    ('0' <= c && c <= '9') || ('a' <= c && c <= 'f')
}

/// The hyphenated lower-case text form of a UUID, `8-4-4-4-12` hex digits.
pub open spec fn is_uuid_text(s: Seq<char>) -> bool {
    &&& s.len() == 36
    &&& forall|i: int|
        0 <= i < 36 ==> if i == 8 || i == 13 || i == 18 || i == 23 {
            #[trigger] s[i] == '-'
        } else {
            is_lower_hex(s[i])
        }
}

/// The text form of a UUID of version `v` with the RFC 4122 variant: the
/// version digit stands at index 14, and the variant digit at index 19 is
/// one of `8`, `9`, `a` and `b`.
pub open spec fn is_uuid_text_of_version(s: Seq<char>, v: char) -> bool {
    &&& is_uuid_text(s)
    &&& s[14] == v
    &&& (s[19] == '8' || s[19] == '9' || s[19] == 'a' || s[19] == 'b')
}

/// `uuid::Uuid::new_v4().to_string()`: a random version-4 UUID in its
/// hyphenated lower-case form (the `Display` of `Uuid` writes
/// `format_hyphenated` with lower-case digits; `new_v4` sets the version
/// nibble to 4 and the variant bits to `10`). Which UUID comes back is left
/// open: it is random.
#[verifier::external_body]
pub(crate) fn new_uuid_v4_text() -> (r: String)
    ensures
        is_uuid_text_of_version(r@, '4'),
{
    uuid::Uuid::new_v4().to_string()
}

/// `uuid::Uuid::now_v7().to_string()`: a time-ordered version-7 UUID in its
/// hyphenated lower-case form (`new_v7` builds it with version 7 and the
/// variant bits `10`). Which UUID comes back is left open: it depends on
/// the clock and on chance.
#[verifier::external_body]
pub(crate) fn new_uuid_v7_text() -> (r: String)
    ensures
        is_uuid_text_of_version(r@, '7'),
{
    uuid::Uuid::now_v7().to_string()
}

/// RFC 3339 text of an instant in UTC as `to_rfc3339` writes it: a date of
/// at least four year digits, `-MM-DD`, `T`, `HH:MM:SS` and perhaps a
/// fraction, then the offset, which for UTC is `+00:00`. So it has at least
/// 25 characters and ends with `+00:00`.
pub open spec fn is_utc_rfc3339_text(s: Seq<char>) -> bool {
    &&& s.len() >= 25
    &&& s.subrange(s.len() - 6, s.len() as int) == "+00:00"@
}

/// `chrono::Utc::now().to_rfc3339()`: the current time as RFC 3339 text.
/// `write_rfc3339` is called with `use_z` false, so the zero offset of UTC
/// is written `+00:00`. Which instant the text holds is left open: it
/// depends on the clock.
#[verifier::external_body]
pub(crate) fn now_rfc3339() -> (r: String)
    ensures
        is_utc_rfc3339_text(r@),
{
    chrono::Utc::now().to_rfc3339()
}

/// A character that an HTTP header value may hold: a tab, or any character
/// from the space on but DEL.
pub open spec fn is_header_value_char(c: char) -> bool {
    c == '\t' || ((c as u32) >= 32 && (c as u32) != 127)
}

/// Text that an HTTP header value may hold: every character is allowed.
pub open spec fn is_header_value_text(s: Seq<char>) -> bool {
    forall|i: int| 0 <= i < s.len() ==> is_header_value_char(#[trigger] s[i])
}

/// `reqwest::header::HeaderValue::from_str(value)`, reduced to its error
/// text. `from_str` refuses the text when one of its UTF-8 bytes is below 32
/// and not a tab, or is 127; a character past ASCII is encoded in bytes of
/// 128 and more, which it accepts. The `Display` of the error,
/// `InvalidHeaderValue`, is the fixed text `failed to parse header value`.
#[verifier::external_body]
pub(crate) fn header_value_error(value: &str) -> (r: Option<String>)
    ensures
        r is None <==> is_header_value_text(value@),
        r matches Some(m) ==> m@ == "failed to parse header value"@,
{
    match reqwest::header::HeaderValue::from_str(value) {
        Ok(_) => None,
        Err(e) => Some(e.to_string()),
    }
}

/// What `std::time::Duration::from_secs` returns for `secs`.
pub uninterp spec fn duration_of_secs(secs: u64) -> std::time::Duration;

/// `std::time::Duration::from_secs`: a span of `secs` seconds, named by
/// `duration_of_secs`. A `Duration` is opaque here, so nothing more is
/// stated of it.
#[verifier::external_body]
pub(crate) fn duration_from_secs(secs: u64) -> (r: std::time::Duration)
    ensures
        r == duration_of_secs(secs),
{
    std::time::Duration::from_secs(secs)
}

/// The `Display` text of a `reqwest` error; it depends on the error alone.
pub uninterp spec fn reqwest_display(e: reqwest::Error) -> Seq<char>;

/// The `Display` text of a `reqwest` error (`to_string`), named by `reqwest_display`.
#[verifier::external_body]
pub(crate) fn reqwest_error_text(e: &reqwest::Error) -> (r: String)
    ensures
        r@ == reqwest_display(*e),
{
    e.to_string()
}

/// The `Display` text of a `serde_json` error; it depends on the error alone.
pub uninterp spec fn json_error_display(e: serde_json::Error) -> Seq<char>;

/// The `Display` text of a `serde_json` error (`to_string`), named by `json_error_display`.
#[verifier::external_body]
pub(crate) fn json_error_text(e: &serde_json::Error) -> (r: String)
    ensures
        r@ == json_error_display(*e),
{
    e.to_string()
}

/// The `Display` text of a `url` parse error; it depends on the error alone.
pub uninterp spec fn url_error_display(e: url::ParseError) -> Seq<char>;

/// The `Display` text of a `url` parse error (`to_string`), named by `url_error_display`.
#[verifier::external_body]
pub(crate) fn url_error_text(e: &url::ParseError) -> (r: String)
    ensures
        r@ == url_error_display(*e),
{
    e.to_string()
}

/// The text a JSON value holds: `Some` of it when the value is a JSON
/// string, `None` for any other value (what `serde_json::Value::as_str`
/// gives).
pub uninterp spec fn json_text(v: serde_json::Value) -> Option<Seq<char>>;

/// `serde_json::Value::as_str`: the text of a JSON string, none for any
/// other value; it depends on the value alone, named by `json_text`.
#[verifier::external_body]
pub(crate) fn json_as_str(v: &serde_json::Value) -> (r: Option<&str>)
    ensures
        match r {
            Some(s) => json_text(*v) == Some(s@),
            None => json_text(*v) is None,
        },
{
    v.as_str()
}

/// The instant an RFC 3339 text names, in nanoseconds since the Unix
/// epoch: what `chrono::DateTime::parse_from_rfc3339` reads from the text,
/// counted by `timestamp_nanos_opt`; none when the text does not parse or
/// the instant does not fit in an `i64`. It depends on the text alone.
pub uninterp spec fn rfc3339_nanos(s: Seq<char>) -> Option<i64>;

/// `chrono::DateTime::parse_from_rfc3339`, the parsed instant taken as
/// nanoseconds since the Unix epoch (`timestamp_nanos_opt`); named by
/// `rfc3339_nanos`.
#[verifier::external_body]
pub(crate) fn rfc3339_instant(s: &str) -> (r: Option<i64>)
    ensures
        r == rfc3339_nanos(s@),
{
    match chrono::DateTime::parse_from_rfc3339(s) {
        Ok(d) => d.timestamp_nanos_opt(),
        Err(_) => None,
    }
}

/// What `str::to_lowercase` gives on a string (Unicode lower-casing).
pub uninterp spec fn lowercase(s: Seq<char>) -> Seq<char>;

/// `str::to_lowercase`: the result is the Unicode lower-case form of `s`,
/// named by `lowercase`; it depends on the characters of `s` alone.
#[verifier::external_body]
pub(crate) fn to_lowercase(s: &str) -> (r: String)
    ensures
        r@ == lowercase(s@),
{
    s.to_lowercase()
}

} // verus!
