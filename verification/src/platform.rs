//! What the machine and its libraries supply: the time, fresh identifiers,
//! calendar texts, JSON and paths. None of it is proved here; each item says
//! what it takes on trust.

use crate::text::{contains_seq, ends_with_seq, texts};
use vstd::prelude::*;

verus! {

/// The pattern of the stamp in the name of a finished recording.
pub const COMPACT_STAMP: &'static str = "%Y%m%d_%H%M%S";

/// The pattern of a time of day in a report.
pub const READABLE_STAMP: &'static str = "%Y-%m-%d %H:%M:%S";

/// What stands at a place of a JSON document.
#[derive(Debug, Clone, PartialEq, Eq)]
pub enum JsonLeaf {
    /// The text is no JSON document, or nothing stands at the place.
    Missing,
    /// A string.
    Text(String),
    /// A whole number that is not negative and fits in 64 bits.
    Number(u64),
    /// A list of so many items.
    List(usize),
    /// Anything else.
    Other,
}

/// A `JsonLeaf` with its text as a sequence of characters.
pub enum JsonLeafView {
    Missing,
    Text(Seq<char>),
    Number(u64),
    List(nat),
    Other,
}

impl View for JsonLeaf {
    type V = JsonLeafView;

    open spec fn view(&self) -> JsonLeafView {
        match self {
            JsonLeaf::Missing => JsonLeafView::Missing,
            JsonLeaf::Text(t) => JsonLeafView::Text(t@),
            JsonLeaf::Number(n) => JsonLeafView::Number(*n),
            JsonLeaf::List(n) => JsonLeafView::List(*n as nat),
            JsonLeaf::Other => JsonLeafView::Other,
        }
    }
}

/// The text that the `chrono` crate writes for the instant that lies
/// `millis` milliseconds from the Unix epoch, in UTC, under a pattern of
/// `strftime`; `None` where the calendar of the crate cannot hold the
/// instant.
pub uninterp spec fn formatted_utc(millis: int, pattern: Seq<char>) -> Option<Seq<char>>;

/// The text that the `chrono` crate writes for the instant in the form of
/// RFC 3339; `None` where its calendar cannot hold the instant.
pub uninterp spec fn rfc3339_of(millis: int) -> Option<Seq<char>>;

/// The instant, in milliseconds from the Unix epoch, that the `chrono` crate
/// reads out of a text in the form of RFC 3339; `None` where the text has
/// another form.
pub uninterp spec fn rfc3339_millis(text: Seq<char>) -> Option<int>;

/// What the `serde_json` crate finds at JSON Pointer `pointer` in the JSON
/// document `body`.
pub uninterp spec fn json_leaf_at(body: Seq<char>, pointer: Seq<char>) -> JsonLeafView;

/// The JSON text that the `serde_json` crate writes for a list of strings.
pub uninterp spec fn json_of_strings(items: Seq<Seq<char>>) -> Seq<char>;

/// `ext` holds no dot and stands in `path` right after a dot: what any
/// reading of the path can give as the extension of the file.
pub open spec fn follows_a_dot(path: Seq<char>, ext: Seq<char>) -> bool {
    !ext.contains('.') && contains_seq(path, seq!['.'] + ext)
}

/// A plain name of a file or directory: not empty, neither `.` nor `..`, and
/// without a slash, a backslash or a colon, so that on no system it is read
/// as more than one step or as a path of its own.
pub open spec fn plain_name(name: Seq<char>) -> bool {
    &&& name.len() > 0
    &&& name != seq!['.']
    &&& name != seq!['.', '.']
    &&& forall|i: int|
        0 <= i < name.len() ==> #[trigger] name[i] != '/' && name[i] != '\\' && name[i] != ':'
}

/// The stamp `YYYYMMDD_HHMMSS` of an instant.
pub open spec fn compact_utc_stamp(millis: int) -> Option<Seq<char>> {
    formatted_utc(millis, COMPACT_STAMP@)
}

/// The string at a place of a JSON document, if a string stands there.
pub open spec fn json_string_at(body: Seq<char>, pointer: Seq<char>) -> Option<Seq<char>> {
    match json_leaf_at(body, pointer) {
        JsonLeafView::Text(t) => Some(t),
        _ => None,
    }
}

/// The number of milliseconds since the Unix epoch, by
/// `std::time::SystemTime::now` and `SystemTime::duration_since`; `None`
/// where the clock stands before the epoch or the number does not fit.
/// Trusted: a reading is never negative, since it is the length of a span
/// of time.
#[verifier::external_body]
pub(crate) fn now_millis() -> (out: Option<i64>)
    ensures
        out matches Some(millis) ==> millis >= 0,
{
    match std::time::SystemTime::now().duration_since(std::time::UNIX_EPOCH) {
        Ok(elapsed) => i64::try_from(elapsed.as_millis()).ok(),
        Err(_) => None,
    }
}

/// A new random identifier from `uuid::Uuid::new_v4`, in the hyphenated
/// lower-case form that its `Display` writes. Trusted: that form always has
/// 36 characters. Which identifier comes back is left open.
#[verifier::external_body]
pub(crate) fn fresh_id() -> (id: String)
    ensures
        id@.len() == 36,
{
    uuid::Uuid::new_v4().to_string()
}

/// Formats an instant with `chrono`: `DateTime::from_timestamp_millis`, then
/// `DateTime::format` under `pattern`. Only the two patterns of this crate
/// are taken, since a pattern that `chrono` does not know makes it panic.
/// Trusted: the result depends on the instant and the pattern alone.
#[verifier::external_body]
pub(crate) fn format_utc(millis: i64, pattern: &str) -> (out: Option<String>)
    requires
        pattern@ == COMPACT_STAMP@ || pattern@ == READABLE_STAMP@,
    ensures
        out is Some <==> formatted_utc(millis as int, pattern@) is Some,
        out matches Some(s) ==> formatted_utc(millis as int, pattern@) == Some(s@),
{
    match chrono::DateTime::from_timestamp_millis(millis) {
        Some(t) => Some(t.format(pattern).to_string()),
        None => None,
    }
}

/// Writes an instant in the form of RFC 3339 with `chrono`:
/// `DateTime::from_timestamp_millis`, then `DateTime::to_rfc3339`. Trusted:
/// the result depends on the instant alone.
#[verifier::external_body]
pub(crate) fn to_rfc3339(millis: i64) -> (out: Option<String>)
    ensures
        out is Some <==> rfc3339_of(millis as int) is Some,
        out matches Some(s) ==> rfc3339_of(millis as int) == Some(s@),
{
    match chrono::DateTime::from_timestamp_millis(millis) {
        Some(t) => Some(t.to_rfc3339()),
        None => None,
    }
}

/// Reads an instant in the form of RFC 3339 with `chrono`:
/// `DateTime::parse_from_rfc3339`, then `DateTime::timestamp_millis`.
/// Trusted: the result depends on the text alone.
#[verifier::external_body]
pub(crate) fn parse_rfc3339(text: &str) -> (out: Option<i64>)
    ensures
        out is Some <==> rfc3339_millis(text@) is Some,
        out matches Some(m) ==> rfc3339_millis(text@) == Some(m as int),
{
    match chrono::DateTime::parse_from_rfc3339(text) {
        Ok(t) => Some(t.timestamp_millis()),
        Err(_) => None,
    }
}

/// Looks into a JSON document with `serde_json`: `from_str` into a `Value`,
/// then `Value::pointer`, then one arm for each kind of value. Trusted: the
/// result depends on the two texts alone.
#[verifier::external_body]
pub(crate) fn read_json(body: &str, pointer: &str) -> (out: JsonLeaf)
    ensures
        out@ == json_leaf_at(body@, pointer@),
{
    let value: serde_json::Value = match serde_json::from_str(body) {
        Ok(v) => v,
        Err(_) => return JsonLeaf::Missing,
    };
    match value.pointer(pointer) {
        None => JsonLeaf::Missing,
        Some(serde_json::Value::String(s)) => JsonLeaf::Text(s.clone()),
        Some(serde_json::Value::Number(n)) => match n.as_u64() {
            Some(u) => JsonLeaf::Number(u),
            None => JsonLeaf::Other,
        },
        Some(serde_json::Value::Array(a)) => JsonLeaf::List(a.len()),
        Some(_) => JsonLeaf::Other,
    }
}

/// Writes a list of strings as JSON with `serde_json::to_string`. Trusted:
/// the result depends on the texts alone; writing strings cannot fail.
#[verifier::external_body]
pub(crate) fn strings_to_json(items: &Vec<String>) -> (out: String)
    ensures
        out@ == json_of_strings(texts(items@)),
{
    serde_json::to_string(items).unwrap_or_default()
}

/// Joins a directory and a name with `std::path::Path::join`. Trusted: a
/// plain name is adjoined as it stands, so that the result ends with it.
/// What stands before it is left open: separators, and what becomes of the
/// directory's own text, differ between systems.
#[verifier::external_body]
pub(crate) fn join_path(base: &str, name: &str) -> (out: String)
    ensures
        plain_name(name@) ==> ends_with_seq(out@, name@),
{
    std::path::Path::new(base).join(name).to_string_lossy().into_owned()
}

/// The extension of the file that a path names, by
/// `std::path::Path::extension`. Trusted: an extension, where one is
/// reported, is the part of the file's name after its last dot, so it holds
/// no dot and stands in the path right after one. Which part of the path
/// counts as the name of the file is left open: it differs between systems.
#[verifier::external_body]
pub(crate) fn path_extension(path: &str) -> (out: Option<String>)
    ensures
        out matches Some(ext) ==> follows_a_dot(path@, ext@),
{
    match std::path::Path::new(path).extension() {
        Some(e) => Some(e.to_string_lossy().into_owned()),
        None => None,
    }
}

} // verus!
