use vstd::prelude::*;

verus! {

/// Lowercase hex digit for a value below 16.
pub open spec fn lower_hex_digit(n: nat) -> char {
    seq!['0', '1', '2', '3', '4', '5', '6', '7', '8', '9', 'a', 'b', 'c', 'd', 'e', 'f'][n as int]
}

/// How one character appears inside a JSON string: `"` and `\` escaped,
/// the five controls with a short escape by theirs, other controls below
/// 0x20 as `\u00xx`, everything else as it is.
pub open spec fn json_escape(c: char) -> Seq<char> {
    if c == '"' {
        seq!['\\', '"']
    } else if c == '\\' {
        seq!['\\', '\\']
    } else if c == '\u{08}' {
        seq!['\\', 'b']
    } else if c == '\t' {
        seq!['\\', 't']
    } else if c == '\n' {
        seq!['\\', 'n']
    } else if c == '\u{0C}' {
        seq!['\\', 'f']
    } else if c == '\r' {
        seq!['\\', 'r']
    } else if (c as u32) < 0x20 {
        seq![
            '\\',
            'u',
            '0',
            '0',
            lower_hex_digit((c as u32 / 16) as nat),
            lower_hex_digit((c as u32 % 16) as nat),
        ]
    } else {
        seq![c]
    }
}

pub open spec fn json_escaped(s: Seq<char>) -> Seq<char>
    decreases s.len(),
{
    if s.len() == 0 {
        Seq::empty()
    } else {
        json_escaped(s.drop_last()) + json_escape(s.last())
    }
}

/// The JSON string literal for a text: its escaped characters between quotes.
pub open spec fn json_string_literal(s: Seq<char>) -> Seq<char> {
    seq!['"'] + json_escaped(s) + seq!['"']
}

/// Relies on `serde_json::to_string` on a `str`: it writes into a byte
/// vector, which cannot fail, the quoted text with serde_json's escapes.
/// The error, which does not occur, would be handed back as its message.
#[verifier::external_body]
pub(crate) fn to_json_string(s: &str) -> (r: Result<String, String>)
    ensures
        r is Ok,
        r matches Ok(q) ==> q@ == json_string_literal(s@),
{
    serde_json::to_string(s).map_err(|e| e.to_string())
}

} // verus!
