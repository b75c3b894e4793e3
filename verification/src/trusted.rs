//! The assumed boundary of the library: declarations and thin wrappers
//! around the outside crates it relies on — serde_json for envelope text,
//! uuid for identifier generation, chrono for wall-clock time — and one
//! std function that vstd leaves unspecified. Verus believes the
//! contracts here; everything else in the crate is proved against them.

use vstd::prelude::*;

verus! {

/// Whether serde_json accepts a text as JSON. `serde_json::from_str` is a
/// function of its input alone, so the fact has a name here and is never
/// stated further.
pub uninterp spec fn json_accepts(s: Seq<char>) -> bool;

/// The `type` field a text carries when read as a JSON object: the string
/// under that key, if the text parses to an object holding one. A
/// function of the text alone.
pub uninterp spec fn json_tag_of(s: Seq<char>) -> Option<Seq<char>>;

/// The `data` field of a text read as a JSON object, as `json_tag_of`.
pub uninterp spec fn json_data_of(s: Seq<char>) -> Option<Seq<char>>;

/// The `cols` field of a text read as a JSON object: the number under
/// that key, when it is a non-negative integer in range. A function of
/// the text alone.
pub uninterp spec fn json_cols_of(s: Seq<char>) -> Option<u64>;

/// The `rows` field of a text read as a JSON object, as `json_cols_of`.
pub uninterp spec fn json_rows_of(s: Seq<char>) -> Option<u64>;

/// The view of an optional owned text.
pub open spec fn opt_string_text(o: Option<String>) -> Option<Seq<char>> {
    match o {
        Some(s) => Some(s@),
        None => None,
    }
}

/// The JSON string literal (quoted, with escapes) that serde_json
/// produces for a given text; a function of the text alone.
pub uninterp spec fn json_string_lit(s: Seq<char>) -> Seq<char>;

/// The hyphenated display form that the uuid crate gives a 128-bit
/// identifier; a function of the identifier alone.
pub uninterp spec fn uuid_text(id: u128) -> Seq<char>;

/// The `HH:MM:SS UTC` display of a Unix timestamp; a function of the
/// timestamp alone.
pub uninterp spec fn clock_text(secs: i64) -> Seq<char>;

/// The RFC 3339 display of a Unix timestamp; a function of the timestamp
/// alone.
pub uninterp spec fn rfc3339_text(secs: i64) -> Seq<char>;

/// Relies on serde_json's `from_str::<Value>`, `Value::get`,
/// `Value::as_str` and `Value::as_u64`: one parse of the text and the
/// four envelope fields the JSON object carries. Every one of them is
/// deterministic in the text alone, so each result bears a name; a text
/// serde_json refuses carries no fields.
#[verifier::external_body]
pub(crate) fn read_envelope_fields(s: &str) -> (r: (
    Option<String>,
    Option<String>,
    Option<u64>,
    Option<u64>,
    bool,
))
    ensures
        r.4 == json_accepts(s@),
        opt_string_text(r.0) == json_tag_of(s@),
        opt_string_text(r.1) == json_data_of(s@),
        r.2 == json_cols_of(s@),
        r.3 == json_rows_of(s@),
{
    match serde_json::from_str::<serde_json::Value>(s) {
        Ok(v) => (
            v.get("type").and_then(|f| f.as_str()).map(|t| t.to_string()),
            v.get("data").and_then(|f| f.as_str()).map(|t| t.to_string()),
            v.get("cols").and_then(|f| f.as_u64()),
            v.get("rows").and_then(|f| f.as_u64()),
            true,
        ),
        Err(_) => (None, None, None, None, false),
    }
}

/// Relies on `serde_json::to_string` on a `str`: serializing a string
/// never fails and depends on the characters alone.
#[verifier::external_body]
pub(crate) fn json_quote(s: &str) -> (r: String)
    ensures
        r@ == json_string_lit(s@),
{
    match serde_json::to_string(s) {
        Ok(t) => t,
        Err(_) => String::new(),
    }
}

/// Relies on `uuid::Uuid::new_v4`: a randomly generated identifier, of
/// which nothing is promised.
#[verifier::external_body]
pub(crate) fn fresh_session_id() -> (r: u128) {
    uuid::Uuid::new_v4().as_u128()
}

/// Relies on the uuid crate's `Display` for `Uuid`: the hyphenated
/// lowercase form, a function of the identifier alone.
#[verifier::external_body]
pub(crate) fn session_id_display(id: u128) -> (r: String)
    ensures
        r@ == uuid_text(id),
{
    uuid::Uuid::from_u128(id).to_string()
}

/// Relies on `chrono::Utc::now`: the machine's clock, of which nothing is
/// promised.
#[verifier::external_body]
pub(crate) fn now_unix() -> (r: i64) {
    chrono::Utc::now().timestamp()
}

/// Relies on `chrono::DateTime::format` over a UTC time built with
/// `DateTime::from_timestamp`, which is defined on every timestamp up to
/// the year 9999: the `HH:MM:SS UTC` display, a function of the timestamp
/// alone; its fields are zero-padded to two digits, so it is always
/// twelve characters.
#[verifier::external_body]
pub(crate) fn clock_display(secs: i64) -> (r: String)
    requires
        0 <= secs <= 253402300799,
    ensures
        r@ == clock_text(secs),
        r@.len() == 12,
{
    match chrono::DateTime::from_timestamp(secs, 0) {
        Some(dt) => dt.format("%H:%M:%S UTC").to_string(),
        None => String::new(),
    }
}

/// Relies on `chrono::DateTime::to_rfc3339` over a UTC time built with
/// `DateTime::from_timestamp`, which is defined on every timestamp up to
/// the year 9999: the RFC 3339 display, a function of the timestamp
/// alone.
#[verifier::external_body]
pub(crate) fn rfc3339_display(secs: i64) -> (r: String)
    requires
        0 <= secs <= 253402300799,
    ensures
        r@ == rfc3339_text(secs),
{
    match chrono::DateTime::from_timestamp(secs, 0) {
        Some(dt) => dt.to_rfc3339(),
        None => String::new(),
    }
}

/// Relies on `str`'s `PartialEq`, which vstd leaves unspecified: equality
/// of the character sequences.
#[verifier::external_body]
pub(crate) fn str_eq(a: &str, b: &str) -> (r: bool)
    ensures
        r == (a@ == b@),
{
    a == b
}

} // verus!
