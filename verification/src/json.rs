//! JSON text for the messages this library writes, with strings quoted by
//! `serde_json`.
use vstd::prelude::*;
use crate::text::{append_chars, append_str, chars_of, decimal, string_from_chars};

verus! {

/// A lower-case hexadecimal digit.
pub open spec fn hex_lower(d: int) -> char {
    if d < 10 {
        (48 + d) as char
    } else {
        (87 + d) as char
    }
}

/// How a JSON string writes one character: `"` and `\` behind a backslash,
/// the usual short escapes for backspace, tab, newline, form feed and
/// carriage return, `\u00XX` for the other control characters below 0x20.
pub open spec fn json_escape(c: char) -> Seq<char> {
    let u = c as u32;
    if c == '"' {
        seq!['\\', '"']
    } else if c == '\\' {
        seq!['\\', '\\']
    } else if u == 0x08 {
        seq!['\\', 'b']
    } else if u == 0x09 {
        seq!['\\', 't']
    } else if u == 0x0a {
        seq!['\\', 'n']
    } else if u == 0x0c {
        seq!['\\', 'f']
    } else if u == 0x0d {
        seq!['\\', 'r']
    } else if u < 0x20 {
        seq!['\\', 'u', '0', '0', hex_lower((u / 16) as int), hex_lower((u % 16) as int)]
    } else {
        seq![c]
    }
}

/// The escaped characters of a string.
pub open spec fn json_escaped(s: Seq<char>) -> Seq<char>
    decreases s.len(),
{
    if s.len() == 0 {
        Seq::empty()
    } else {
        json_escaped(s.drop_last()) + json_escape(s.last())
    }
}

/// A JSON string literal.
pub open spec fn json_string(s: Seq<char>) -> Seq<char> {
    seq!['"'] + json_escaped(s) + seq!['"']
}

/// A JSON string literal from `serde_json::to_string` on a `&str`; writing
/// into a `String` cannot fail for a string value.
#[verifier::external_body]
pub(crate) fn json_quote(s: &str) -> (r: String)
    ensures
        r@ == json_string(s@),
{
    match serde_json::to_string(s) {
        Ok(v) => v,
        Err(_) => String::new(),
    }
}

/// `true` or `false`.
pub open spec fn json_bool(b: bool) -> Seq<char> {
    if b { "true"@ } else { "false"@ }
}

/// Append `true` or `false`.
pub fn append_bool(v: &mut Vec<char>, b: bool)
    ensures
        final(v)@ == old(v)@ + json_bool(b),
{
    if b {
        append_str(v, "true");
    } else {
        append_str(v, "false");
    }
}

/// The JSON of a recognition result: `{"text":…,"is_final":…,"segment":…}`.
pub open spec fn stt_response_json(text: Seq<char>, is_final: bool, segment: u32) -> Seq<char> {
    "{\"text\":"@ + json_string(text) + ",\"is_final\":"@ + json_bool(is_final) + ",\"segment\":"@
        + decimal(segment as nat) + seq!['}']
}

impl crate::sessions::SttResponse {
    /// The JSON text sent to the client, fields in declaration order.
    pub fn to_json(&self) -> (r: String)
        ensures
            r@ == stt_response_json(self.text@, self.is_final, self.segment),
    {
        let mut v: Vec<char> = Vec::new();
        append_str(&mut v, "{\"text\":");
        append_str(&mut v, json_quote(self.text.as_str()).as_str());
        append_str(&mut v, ",\"is_final\":");
        append_bool(&mut v, self.is_final);
        append_str(&mut v, ",\"segment\":");
        append_str(&mut v, crate::text::u64_to_decimal(self.segment as u64).as_str());
        v.push('}');
        let r = string_from_chars(v.as_slice());
        proof {
            assert(r@ =~= stt_response_json(self.text@, self.is_final, self.segment));
        }
        r
    }
}

} // verus!
