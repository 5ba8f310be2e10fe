//! HTTP replies as plain values: a status code and a JSON body.
use vstd::prelude::*;

verus! {

/// A reply to hand back to the caller.
#[derive(Debug, Clone)]
pub struct HttpReply {
    pub status: u16,
    pub body: String,
}

/// A lower-case hexadecimal digit.
pub open spec fn hex_char(d: nat) -> char {
    seq!['0', '1', '2', '3', '4', '5', '6', '7', '8', '9', 'a', 'b', 'c', 'd', 'e', 'f'][d as int]
}

/// How one character is written inside a JSON string.
pub open spec fn json_escape_char(c: char) -> Seq<char> {
    let u = c as u32;
    if c == '"' {
        seq!['\\', '"']
    } else if c == '\\' {
        seq!['\\', '\\']
    } else if u == 0x8 {
        seq!['\\', 'b']
    } else if u == 0x9 {
        seq!['\\', 't']
    } else if u == 0xA {
        seq!['\\', 'n']
    } else if u == 0xC {
        seq!['\\', 'f']
    } else if u == 0xD {
        seq!['\\', 'r']
    } else if u < 0x20 {
        seq!['\\', 'u', '0', '0', hex_char((u / 16) as nat), hex_char((u % 16) as nat)]
    } else {
        seq![c]
    }
}

/// The characters of `s`, each escaped for a JSON string.
pub open spec fn json_escaped(s: Seq<char>) -> Seq<char>
    decreases s.len(),
{
    if s.len() == 0 {
        Seq::empty()
    } else {
        json_escape_char(s[0]) + json_escaped(s.drop_first())
    }
}

/// `s` as a JSON string literal, quotes included.
pub open spec fn json_quoted(s: Seq<char>) -> Seq<char> {
    seq!['"'] + json_escaped(s) + seq!['"']
}

/// Relies on `serde_json::to_string` on a `str`: it writes a quoted string in
/// which `"`, `\` and the control characters below U+0020 are escaped (the
/// short forms \b \t \n \f \r where they exist, else \u00XX in lower-case hex)
/// and every other character is kept; writing into memory cannot fail.
#[verifier::external_body]
pub(crate) fn json_quote(s: &str) -> (r: String)
    ensures
        r@ == json_quoted(s@),
{
    serde_json::to_string(s).unwrap_or_default()
}

/// The body `{"<key>":<value as a JSON string>}`.
pub open spec fn json_member_body(key: Seq<char>, value: Seq<char>) -> Seq<char> {
    seq!['{'] + json_quoted(key) + seq![':'] + json_quoted(value) + seq!['}']
}

/// Writes `{"<key>":"<value>"}`, both as JSON strings.
pub fn json_member(key: &str, value: &str) -> (r: String)
    ensures
        r@ == json_member_body(key@, value@),
{
    let mut r = String::from_str("{");
    let k = json_quote(key);
    r.append(k.as_str());
    r.append(":");
    let v = json_quote(value);
    r.append(v.as_str());
    r.append("}");
    proof {
        reveal_strlit("{");
        reveal_strlit(":");
        reveal_strlit("}");
    }
    assert(r@ =~= json_member_body(key@, value@));
    r
}

/// The success reply of a transcription: 200 with `{"text":...}`.
pub fn transcript_reply(text: &str) -> (r: HttpReply)
    ensures
        r.status == 200,
        r.body@ == json_member_body("text"@, text@),
{
    HttpReply { status: 200, body: json_member("text", text) }
}

} // verus!
