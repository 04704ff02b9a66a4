//! JSON strings and the topic envelope sent to clients.
use vstd::prelude::*;

verus! {

/// A lowercase hexadecimal digit, for `d < 16`.
pub open spec fn hex_digit(d: int) -> char {
    seq!['0', '1', '2', '3', '4', '5', '6', '7', '8', '9', 'a', 'b', 'c', 'd', 'e', 'f'][d]
}

/// How one character stands inside a JSON string: `"` and `\` behind a
/// backslash, the short escapes for backspace, tab, line feed, form feed and
/// carriage return, `\u00XX` for the other control characters, and any
/// other character as it is.
pub open spec fn json_escape(c: char) -> Seq<char> {
    if c == '"' {
        seq!['\\', '"']
    } else if c == '\\' {
        seq!['\\', '\\']
    } else if c == '\u{8}' {
        seq!['\\', 'b']
    } else if c == '\t' {
        seq!['\\', 't']
    } else if c == '\n' {
        seq!['\\', 'n']
    } else if c == '\u{c}' {
        seq!['\\', 'f']
    } else if c == '\r' {
        seq!['\\', 'r']
    } else if (c as u32) < 0x20 {
        seq!['\\', 'u', '0', '0', hex_digit((c as u32) as int / 16), hex_digit((c as u32) as int % 16)]
    } else {
        seq![c]
    }
}

/// The characters of `s`, each escaped for a JSON string.
pub open spec fn json_escaped(s: Seq<char>) -> Seq<char>
    decreases s.len(),
{
    if s.len() == 0 {
        seq![]
    } else {
        json_escaped(s.drop_last()) + json_escape(s.last())
    }
}

/// The JSON text of a string value: its escaped characters in double quotes.
pub open spec fn json_string_of(s: Seq<char>) -> Seq<char> {
    seq!['"'] + json_escaped(s) + seq!['"']
}

/// Relies on the `Display` of `serde_json::Value`: a string value is written
/// as a JSON string literal, escaped as `json_escape` says.
#[verifier::external_body]
pub(crate) fn json_string(s: &str) -> (r: String)
    ensures
        r@ == json_string_of(s@),
{
    serde_json::Value::String(s.to_owned()).to_string()
}

/// The object `{"payload":<payload>,"topic":<topic>}` over two values already
/// written as JSON strings; keys stand in sorted order, as serde_json's
/// objects keep them.
pub open spec fn topic_record(quoted_topic: Seq<char>, quoted_payload: Seq<char>) -> Seq<char> {
    seq!['{', '"', 'p', 'a', 'y', 'l', 'o', 'a', 'd', '"', ':']
        + quoted_payload
        + seq![',', '"', 't', 'o', 'p', 'i', 'c', '"', ':']
        + quoted_topic
        + seq!['}']
}

/// Frames the envelope from a topic and a payload already written as JSON
/// strings.
pub fn topic_frame(quoted_topic: &str, quoted_payload: &str) -> (r: String)
    ensures
        r@ == topic_record(quoted_topic@, quoted_payload@),
{
    let mut out = String::from_str("{\"payload\":");
    out.append(quoted_payload);
    out.append(",\"topic\":");
    out.append(quoted_topic);
    out.append("}");
    proof {
        reveal_strlit("{\"payload\":");
        reveal_strlit(",\"topic\":");
        reveal_strlit("}");
        assert("{\"payload\":"@ =~= seq!['{', '"', 'p', 'a', 'y', 'l', 'o', 'a', 'd', '"', ':']);
        assert(",\"topic\":"@ =~= seq![',', '"', 't', 'o', 'p', 'i', 'c', '"', ':']);
        assert("}"@ =~= seq!['}']);
    }
    out
}

/// The text frame that carries `payload` under `topic` to a client.
pub fn topic_message(topic: &str, payload: &str) -> (r: String)
    ensures
        r@ == topic_record(json_string_of(topic@), json_string_of(payload@)),
{
    let quoted_topic = json_string(topic);
    let quoted_payload = json_string(payload);
    topic_frame(quoted_topic.as_str(), quoted_payload.as_str())
}

} // verus!
