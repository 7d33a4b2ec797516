//! Trusted boundary to the JSON library. Inbound frames are decoded by
//! `serde_json`; the declarations, names and wrappers here are the only
//! items the verifier takes on faith about it. Each name stands for the
//! outcome of one `serde_json` reading, a function of its arguments
//! alone, and the wrappers' contracts speak of the names so the decoder
//! above them can carry exact contracts.

use vstd::prelude::*;

verus! {

/// Declares `serde_json::Value`, the opaque JSON value the decoded
/// frames carry through to the application.
#[verifier::external_type_specification]
#[verifier::external_body]
pub struct ExValue(serde_json::Value);

/// Declares `serde_json::Map`, the object representation behind a
/// decoded frame.
#[verifier::external_type_specification]
#[verifier::external_body]
#[verifier::reject_recursive_types(K)]
#[verifier::reject_recursive_types(V)]
pub struct ExMap<K, V>(serde_json::Map<K, V>);

/// Lowercase hexadecimal digit of a value below sixteen.
pub open spec fn hex_digit(d: nat) -> char
    recommends
        d < 16,
{
    if d == 0 {
        '0'
    } else if d == 1 {
        '1'
    } else if d == 2 {
        '2'
    } else if d == 3 {
        '3'
    } else if d == 4 {
        '4'
    } else if d == 5 {
        '5'
    } else if d == 6 {
        '6'
    } else if d == 7 {
        '7'
    } else if d == 8 {
        '8'
    } else if d == 9 {
        '9'
    } else if d == 10 {
        'a'
    } else if d == 11 {
        'b'
    } else if d == 12 {
        'c'
    } else if d == 13 {
        'd'
    } else if d == 14 {
        'e'
    } else {
        'f'
    }
}

/// JSON escape of one character: the quote, the backslash and the
/// control characters are escaped (the five with short forms as those,
/// the rest as `\u00..`), and every other character stands verbatim.
pub open spec fn json_escaped_char(c: char) -> Seq<char> {
    if c == '"' {
        seq!['\\', '"']
    } else if c == '\\' {
        seq!['\\', '\\']
    } else if c == '\u{08}' {
        seq!['\\', 'b']
    } else if c == '\u{09}' {
        seq!['\\', 't']
    } else if c == '\u{0a}' {
        seq!['\\', 'n']
    } else if c == '\u{0c}' {
        seq!['\\', 'f']
    } else if c == '\u{0d}' {
        seq!['\\', 'r']
    } else if (c as u32) < 0x20 {
        seq!['\\', 'u', '0', '0', hex_digit(((c as u32) / 16) as nat), hex_digit(
            ((c as u32) % 16) as nat,
        )]
    } else {
        seq![c]
    }
}

/// Characters of a text with each one JSON-escaped.
pub open spec fn json_escaped_text(s: Seq<char>) -> Seq<char>
    decreases s.len(),
{
    if s.len() == 0 {
        Seq::empty()
    } else {
        json_escaped_text(s.drop_last()) + json_escaped_char(s.last())
    }
}

/// JSON string literal of a sequence of characters: the escaped text
/// between quotes.
pub open spec fn json_quoted(s: Seq<char>) -> Seq<char> {
    seq!['"'] + json_escaped_text(s) + seq!['"']
}

/// JSON object a text parses to, when the text is a well-formed JSON
/// object.
pub uninterp spec fn parsed_json_of(s: Seq<char>) -> Option<
    serde_json::Map<String, serde_json::Value>,
>;

/// Fields of a decoded JSON object, keyed by their names.
pub uninterp spec fn json_fields(m: serde_json::Map<String, serde_json::Value>) -> Map<
    Seq<char>,
    serde_json::Value,
>;

/// Unsigned integer a JSON value reads as, when it is one.
pub uninterp spec fn json_as_u64(v: serde_json::Value) -> Option<u64>;

/// Signed integer a JSON value reads as, when it is one.
pub uninterp spec fn json_as_i64(v: serde_json::Value) -> Option<i64>;

/// Boolean a JSON value reads as, when it is one.
pub uninterp spec fn json_as_bool(v: serde_json::Value) -> Option<bool>;

/// Text a JSON value reads as, when it is a string.
pub uninterp spec fn json_as_text(v: serde_json::Value) -> Option<Seq<char>>;

/// Object a JSON value reads as, when it is one.
pub uninterp spec fn json_as_object(v: serde_json::Value) -> Option<
    serde_json::Map<String, serde_json::Value>,
>;

/// Element of a JSON value at a position, when the value is an array
/// and the position is within it.
pub uninterp spec fn json_element(v: serde_json::Value, i: int) -> Option<serde_json::Value>;

/// Relies on `serde_json::to_string` for a string slice: it renders the
/// JSON string literal of the characters — its per-byte escape table is
/// what `json_quoted` states — and string rendering itself never fails.
#[verifier::external_body]
pub(crate) fn json_quoted_text(s: &str) -> (r: String)
    ensures
        r@ == json_quoted(s@),
{
    serde_json::to_string(s).unwrap()
}

/// Relies on `serde_json::from_str`: decodes text into a JSON object
/// when the text is a well-formed JSON object, and fails otherwise;
/// what it decodes depends on the text alone.
#[verifier::external_body]
pub(crate) fn parse_object(s: &str) -> (r: Option<serde_json::Map<String, serde_json::Value>>)
    ensures
        r == parsed_json_of(s@),
{
    serde_json::from_str(s).ok()
}

/// Relies on `serde_json::Map::remove`: takes the value at a key out of
/// an object, yielding nothing when the key is absent; the remaining
/// object holds the remaining fields.
#[verifier::external_body]
pub(crate) fn map_remove(
    m: &mut serde_json::Map<String, serde_json::Value>,
    key: &str,
) -> (r: Option<serde_json::Value>)
    ensures
        json_fields(*old(m)).contains_key(key@) ==> r == Some(json_fields(*old(m))[key@]),
        !json_fields(*old(m)).contains_key(key@) ==> r is None,
        json_fields(*final(m)) == json_fields(*old(m)).remove(key@),
{
    m.remove(key)
}

/// Relies on `serde_json::Value::as_u64`: reads the value as an
/// unsigned integer when it is one.
#[verifier::external_body]
pub(crate) fn value_as_u64(v: &serde_json::Value) -> (r: Option<u64>)
    ensures
        r == json_as_u64(*v),
{
    v.as_u64()
}

/// Relies on `serde_json::Value::as_i64`: reads the value as a signed
/// integer when it is one.
#[verifier::external_body]
pub(crate) fn value_as_i64(v: &serde_json::Value) -> (r: Option<i64>)
    ensures
        r == json_as_i64(*v),
{
    v.as_i64()
}

/// Relies on `serde_json::Value::as_bool`: reads the value as a boolean
/// when it is one.
#[verifier::external_body]
pub(crate) fn value_as_bool(v: &serde_json::Value) -> (r: Option<bool>)
    ensures
        r == json_as_bool(*v),
{
    v.as_bool()
}

/// Relies on `serde_json::Value::as_str`: reads the value as text when
/// it is a string.
#[verifier::external_body]
pub(crate) fn value_as_string(v: &serde_json::Value) -> (r: Option<String>)
    ensures
        (r is Some) == (json_as_text(*v) is Some),
        r matches Some(s) ==> json_as_text(*v) == Some(s@),
{
    v.as_str().map(|s| s.to_owned())
}

/// Tells the object variant of `serde_json::Value` apart from the other
/// kinds and moves its map out, as `Value::as_object` reads it.
#[verifier::external_body]
pub(crate) fn value_into_object(
    v: serde_json::Value,
) -> (r: Option<serde_json::Map<String, serde_json::Value>>)
    ensures
        r == json_as_object(v),
{
    match v {
        serde_json::Value::Object(m) => Some(m),
        _ => None,
    }
}

/// Relies on `serde_json::Value::get` with a position: reads an element
/// of a JSON array, or yields nothing when the value is not an array or
/// the position is out of range.
#[verifier::external_body]
pub(crate) fn value_get_index(v: &serde_json::Value, i: usize) -> (r: Option<&serde_json::Value>)
    ensures
        (r is Some) == (json_element(*v, i as int) is Some),
        r matches Some(e) ==> json_element(*v, i as int) == Some(*e),
{
    v.get(i)
}

} // verus!
