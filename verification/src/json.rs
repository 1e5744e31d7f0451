//! JSON string literals, as `serde_json` writes them.
use crate::error::ClientError;
use vstd::prelude::*;

verus! {

/// `serde_json::Error`, the error of the JSON encoder. It is only passed on;
/// nothing is read from it.
#[verifier::external_type_specification]
#[verifier::external_body]
pub struct ExJsonError(serde_json::Error);

/// The lower-case hexadecimal digit of a value below sixteen.
pub open spec fn hex_digit(v: nat) -> char {
    if v == 0 {
        '0'
    } else if v == 1 {
        '1'
    } else if v == 2 {
        '2'
    } else if v == 3 {
        '3'
    } else if v == 4 {
        '4'
    } else if v == 5 {
        '5'
    } else if v == 6 {
        '6'
    } else if v == 7 {
        '7'
    } else if v == 8 {
        '8'
    } else if v == 9 {
        '9'
    } else if v == 10 {
        'a'
    } else if v == 11 {
        'b'
    } else if v == 12 {
        'c'
    } else if v == 13 {
        'd'
    } else if v == 14 {
        'e'
    } else {
        'f'
    }
}

/// How one character stands inside a JSON string literal.
///
/// The quote and the backslash get a backslash in front; backspace, tab, line
/// feed, form feed and carriage return get their short escapes; every other
/// control character below U+0020 becomes `\u00` and two hexadecimal digits;
/// all other characters stand for themselves.
pub open spec fn escape(c: char) -> Seq<char> {
    if c == '"' {
        seq!['\\', '"']
    } else if c == '\\' {
        seq!['\\', '\\']
    } else if c == '\u{08}' {
        seq!['\\', 'b']
    } else if c == '\t' {
        seq!['\\', 't']
    } else if c == '\n' {
        seq!['\\', 'n']
    } else if c == '\u{0c}' {
        seq!['\\', 'f']
    } else if c == '\r' {
        seq!['\\', 'r']
    } else if (c as nat) < 0x20 {
        seq!['\\', 'u', '0', '0', hex_digit((c as nat) / 16), hex_digit((c as nat) % 16)]
    } else {
        seq![c]
    }
}

/// The characters of `s`, each escaped, in order.
pub open spec fn escaped(s: Seq<char>) -> Seq<char>
    decreases s.len(),
{
    if s.len() == 0 {
        Seq::<char>::empty()
    } else {
        escaped(s.drop_last()) + escape(s.last())
    }
}

/// The JSON string literal that holds `s`: its escaped characters between quotes.
pub open spec fn json_string(s: Seq<char>) -> Seq<char> {
    seq!['"'] + escaped(s) + seq!['"']
}

/// Text that needs no escaping is left as it is.
pub proof fn lemma_escaped_plain(s: Seq<char>)
    requires
        forall|i: int| 0 <= i < s.len() ==> escape(#[trigger] s[i]) == seq![s[i]],
    ensures
        escaped(s) == s,
    decreases s.len(),
{
    if s.len() > 0 {
        lemma_escaped_plain(s.drop_last());
        assert(escaped(s) =~= s);
    }
}

/// Writes `text` as a JSON string literal with `serde_json::to_string`.
///
/// Believed of the outside function: on a string it succeeds, and the
/// literal is the text between two quotes, with the escapes that `escape`
/// lists and nothing else changed. It succeeds because the serializer fails
/// only where its writer does, and `to_string` writes to a vector in memory.
#[verifier::external_body]
fn quote(text: &str) -> (quoted: Result<String, serde_json::Error>)
    ensures
        quoted is Ok,
        quoted matches Ok(literal) ==> literal@ == json_string(text@),
{
    serde_json::to_string(text)
}

/// Writes `text` as a JSON string literal.
///
/// The encoder reports no failure for a text; should it ever report one, the
/// answer is `Encode` and not a broken literal.
pub fn to_json_string(text: &str) -> (literal: Result<String, ClientError>)
    ensures
        literal matches Ok(json) && json@ == json_string(text@),
{
    match quote(text) {
        Ok(json) => Ok(json),
        Err(_) => Err(ClientError::Encode),
    }
}

} // verus!
