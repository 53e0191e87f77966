//! The crate's trusted boundary: every call into an outside crate, and
//! into the parts of std that vstd gives no specification, stands here
//! behind a declared contract.

use serde_json::Value;
use vstd::prelude::*;

use crate::protocol::{ChatMessage, ChatResponseChunk, ModelInfo};

verus! {

/// Milliseconds since the Unix epoch, as the system clock reports them.
///
/// Relies on chrono's `Utc::now` and `DateTime::timestamp_millis`. The
/// result depends on the clock, so nothing is promised of it.
#[verifier::external_body]
pub(crate) fn now_millis() -> i64 {
    chrono::Utc::now().timestamp_millis()
}

/// A freshly drawn identifier.
///
/// Relies on uuid's `Uuid::new_v4`, a random version-4 UUID read out as
/// its 128-bit value. The result is random, so nothing is promised of it.
#[verifier::external_body]
pub(crate) fn fresh_id() -> u128 {
    uuid::Uuid::new_v4().as_u128()
}

/// What `format_date_time` returns for a given timestamp: the text
/// `%Y-%m-%d %H:%M` of that instant in UTC, a function of the timestamp
/// alone.
pub uninterp spec fn date_time_text_of(millis: i64) -> Seq<char>;

/// Formats a millisecond timestamp as `%Y-%m-%d %H:%M` in UTC; empty for
/// a timestamp outside chrono's range.
///
/// Relies on chrono's `DateTime::from_timestamp_millis` and `format`:
/// the result is computed from the timestamp alone.
#[verifier::external_body]
pub(crate) fn format_date_time(millis: i64) -> (r: String)
    ensures
        r@ == date_time_text_of(millis),
{
    match chrono::DateTime::<chrono::Utc>::from_timestamp_millis(millis) {
        Some(dt) => dt.format("%Y-%m-%d %H:%M").to_string(),
        None => String::new(),
    }
}

/// What `format_clock_time` returns for a given timestamp: the text
/// `%H:%M` of that instant in UTC, a function of the timestamp alone.
pub uninterp spec fn clock_time_text_of(millis: i64) -> Seq<char>;

/// Formats a millisecond timestamp as `%H:%M` in UTC; empty for a
/// timestamp outside chrono's range.
///
/// Relies on chrono's `DateTime::from_timestamp_millis` and `format`:
/// the result is computed from the timestamp alone.
#[verifier::external_body]
pub(crate) fn format_clock_time(millis: i64) -> (r: String)
    ensures
        r@ == clock_time_text_of(millis),
{
    match chrono::DateTime::<chrono::Utc>::from_timestamp_millis(millis) {
        Some(dt) => dt.format("%H:%M").to_string(),
        None => String::new(),
    }
}

/// What `parse_rfc3339_millis` returns for a given text: the instant the
/// text names, in milliseconds since the Unix epoch, or `None` where the
/// text is not an RFC 3339 date-time; a function of the text alone.
pub uninterp spec fn rfc3339_millis_of(text: Seq<char>) -> Option<i64>;

/// Reads an RFC 3339 date-time into milliseconds since the Unix epoch.
///
/// Relies on chrono's `DateTime::parse_from_rfc3339` and
/// `timestamp_millis`: the result is computed from the text alone.
#[verifier::external_body]
pub(crate) fn parse_rfc3339_millis(text: &str) -> (r: Option<i64>)
    ensures
        r == rfc3339_millis_of(text@),
{
    match chrono::DateTime::parse_from_rfc3339(text) {
        Ok(dt) => Some(dt.timestamp_millis()),
        Err(_) => None,
    }
}

/// Collects a vector of characters into the string of exactly those
/// characters.
///
/// Relies on std's `String: FromIterator<&char>`, which appends each
/// character in order.
#[verifier::external_body]
pub(crate) fn chars_to_string(chars: &Vec<char>) -> (r: String)
    ensures
        r@ == chars@,
{
    chars.iter().collect()
}

/// A decoded JSON document of serde_json, opaque to this crate; verified
/// code walks it through the declared accessors below.
#[verifier::external_type_specification]
#[verifier::external_body]
pub struct ExValue(serde_json::Value);

/// Relies on serde_json's `Value::get`: the member of an object under a
/// key, or the element of an array at an index; `None` elsewhere.
/// Nothing is stated of the result, which stays opaque.
pub assume_specification<I: serde_json::value::Index>[ serde_json::Value::get::<I> ](
    v: &serde_json::Value,
    index: I,
) -> Option<&serde_json::Value>;

/// Relies on serde_json's `Value::as_str`: the text of a JSON string,
/// `None` for any other kind of value.
pub assume_specification[ serde_json::Value::as_str ](v: &serde_json::Value) -> Option<&str>;

/// Relies on serde_json's `Value::as_u64`: the value of a JSON number
/// that is a non-negative integer, `None` elsewhere.
pub assume_specification[ serde_json::Value::as_u64 ](v: &serde_json::Value) -> Option<u64>;

/// Relies on serde_json's `Value::as_array`: the elements of a JSON
/// array, `None` for any other kind of value.
pub assume_specification[ serde_json::Value::as_array ](v: &serde_json::Value) -> Option<
    &Vec<serde_json::Value>,
>;

/// What `parse_chunk_text` returns for a given line: the decoded chunk,
/// or `None` where the line is not a JSON object of the chunk shape; a
/// function of the line alone.
pub uninterp spec fn chunk_of(line: Seq<char>) -> Option<ChatResponseChunk>;

/// Decodes one line of the streaming chat response into a chunk. `None`
/// where the line is not valid JSON or lacks the required `model` and
/// `done` fields.
///
/// Relies on serde_json's `from_str`, `Value::get`, `Value::pointer` and
/// the `as_*` accessors: the result is computed from the line alone.
#[verifier::external_body]
pub(crate) fn parse_chunk_text(line: &str) -> (r: Option<ChatResponseChunk>)
    ensures
        r == chunk_of(line@),
{
    let v: Value = serde_json::from_str(line).ok()?;
    let model = v.get("model")?.as_str()?.to_string();
    let done = v.get("done")?.as_bool()?;
    Some(ChatResponseChunk {
        model,
        message: v.pointer("/message/content").and_then(Value::as_str).map(ChatMessage::assistant),
        done,
        total_duration: v.get("total_duration").and_then(Value::as_u64),
        eval_count: v.get("eval_count").and_then(Value::as_u64),
        eval_duration: v.get("eval_duration").and_then(Value::as_u64),
        error: v.get("error").and_then(Value::as_str).map(str::to_string),
    })
}

/// What `parse_models_text` returns for a given body: the decoded model
/// list, or `None` where the body is not valid JSON or has no `models`
/// array; a function of the body alone.
pub uninterp spec fn models_of(body: Seq<char>) -> Option<Vec<ModelInfo>>;

/// Decodes the body of the list-models response. `None` where the body
/// is not valid JSON or lacks a `models` array; each array entry becomes
/// one model, read field by field by the verified `model_from_value`.
///
/// Relies on serde_json's `from_str`, `Value::get` and `Value::as_array`:
/// together with the deterministic conversion of each entry, the result
/// is computed from the body alone.
#[verifier::external_body]
pub(crate) fn parse_models_text(body: &str) -> (r: Option<Vec<ModelInfo>>)
    ensures
        r == models_of(body@),
{
    let v: Value = serde_json::from_str(body).ok()?;
    let entries = v.get("models")?.as_array()?;
    Some(entries.iter().map(crate::protocol::model_from_value).collect())
}

} // verus!
