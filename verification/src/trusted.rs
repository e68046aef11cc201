//! The calls this library makes into other crates. Verus takes the
//! contracts in this file on trust: each says what the called function's
//! documentation says, or gives its result a name.

use vstd::prelude::*;

verus! {

/// The 128-bit value of the UUID that `text` spells, if it spells one in a
/// form that `uuid::Uuid::parse_str` reads.
pub uninterp spec fn uuid_value(text: Seq<char>) -> Option<u128>;

/// `uuid::Uuid::parse_str`, with the parsed identifier handed out as the
/// 128-bit value that `Uuid::as_u128` gives. The result depends on the text
/// alone; what it is stays unstated.
#[verifier::external_body]
pub(crate) fn parse_uuid(text: &str) -> (value: Option<u128>)
    ensures
        value == uuid_value(text@),
{
    match uuid::Uuid::parse_str(text) {
        Ok(id) => Some(id.as_u128()),
        Err(_) => None,
    }
}

/// The text that `uuid::Uuid` prints for the identifier with the 128-bit
/// value `value`.
pub uninterp spec fn uuid_text(value: u128) -> Seq<char>;

/// `uuid::Uuid::from_u128` followed by the identifier's `Display`: the
/// hyphenated lower-case form. The result depends on the value alone.
#[verifier::external_body]
pub(crate) fn format_uuid(value: u128) -> (text: String)
    ensures
        text@ == uuid_text(value),
{
    uuid::Uuid::from_u128(value).to_string()
}

/// What the first capture group holds in the leftmost match of the
/// regular expression `pattern` in `text`; `None` where the pattern is no
/// regular expression, where nothing in the text matches, and where the
/// match leaves the group out.
pub uninterp spec fn first_group(pattern: Seq<char>, text: Seq<char>) -> Option<Seq<char>>;

/// `regex::Regex::new` on `pattern`, `Regex::captures` on `text`, and the
/// text of `Captures::get(1)`. The result depends on pattern and text
/// alone; what it is stays unstated.
#[verifier::external_body]
pub(crate) fn capture_first_group(pattern: &str, text: &str) -> (group: Option<String>)
    ensures
        group.deep_view() == first_group(pattern@, text@),
{
    let expression = regex::Regex::new(pattern).ok()?;
    let captures = expression.captures(text)?;
    let group = captures.get(1)?;
    Some(group.as_str().to_string())
}

/// The scheme and the serialization of the URL that `text` spells, if it
/// spells an absolute URL.
pub uninterp spec fn parsed_url(text: Seq<char>) -> Option<(Seq<char>, Seq<char>)>;

/// `url::Url::parse`, with the parsed URL handed out as what `Url::scheme`
/// gives and as its serialization, which is what the URL prints. The
/// result depends on the text alone; what it is stays unstated.
#[verifier::external_body]
pub(crate) fn parse_url(text: &str) -> (parts: Option<(String, String)>)
    ensures
        parts.deep_view() == parsed_url(text@),
{
    match url::Url::parse(text) {
        Ok(url) => Some((url.scheme().to_string(), url.to_string())),
        Err(_) => None,
    }
}

/// A JSON value of `serde_json`.
#[verifier::external_type_specification]
#[verifier::external_body]
pub struct ExJsonValue(serde_json::Value);

/// An error of `serde_json`.
#[verifier::external_type_specification]
#[verifier::external_body]
pub struct ExJsonError(serde_json::Error);

/// Whether `body` is the text of one JSON value, as `serde_json` reads it.
pub uninterp spec fn is_json(body: Seq<u8>) -> bool;

/// `serde_json::from_slice` for a `serde_json::Value`. Whether it reads a
/// value depends on the bytes alone; which bytes it reads stays unstated.
#[verifier::external_body]
pub(crate) fn parse_json(body: &[u8]) -> (value: Result<serde_json::Value, serde_json::Error>)
    ensures
        value.is_ok() == is_json(body@),
{
    serde_json::from_slice::<serde_json::Value>(body)
}

/// How `std` shows the string `text` for debugging: between double
/// quotes, with the characters that cannot stand there as they are
/// escaped.
pub uninterp spec fn str_debug(text: Seq<char>) -> Seq<char>;

/// `format!` with `{:?}` on a string slice, which is `<str as Debug>::fmt`
/// of `std`. The result depends on the text alone; what it is stays
/// unstated.
#[verifier::external_body]
pub(crate) fn debug_text(text: &str) -> (shown: String)
    ensures
        shown@ == str_debug(text@),
{
    format!("{:?}", text)
}

/// The line that stands for the HTTP status `status`: its number and its
/// reason phrase. A number that is no status code has none.
pub uninterp spec fn status_line(status: u16) -> Option<Seq<char>>;

/// `reqwest::StatusCode::from_u16` followed by the status code's
/// `Display`. The result depends on the number alone; what it is stays
/// unstated.
#[verifier::external_body]
pub(crate) fn status_text(status: u16) -> (line: Option<String>)
    ensures
        line.deep_view() == status_line(status),
{
    match reqwest::StatusCode::from_u16(status) {
        Ok(code) => Some(code.to_string()),
        Err(_) => None,
    }
}

} // verus!
