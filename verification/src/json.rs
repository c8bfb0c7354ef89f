//! What this library asks of outside code: the JSON form of a string and
//! whether a text is a JSON document, of `serde_json`; how a status is
//! written out, of `reqwest`.

use vstd::prelude::*;

verus! {

/// One of the sixteen hexadecimal digits, in lower case.
pub open spec fn hex_digit(d: int) -> char {
    if d < 10 {
        ('0' as int + d) as char
    } else {
        ('a' as int + d - 10) as char
    }
}

/// How one character stands inside a JSON string literal: the quote and the
/// backslash behind a backslash; backspace, tab, line feed, form feed and
/// carriage return by their letters; any other character below the space
/// as `\u00` and two hexadecimal digits; every other character as itself.
pub open spec fn escaped_char(c: char) -> Seq<char> {
    if c == '"' {
        seq!['\\', '"']
    } else if c == '\\' {
        seq!['\\', '\\']
    } else if c == '\u{8}' {
        seq!['\\', 'b']
    } else if c == '\t' {
        seq!['\\', 't']
    } else if c == '\n' {
        seq!['\\', 'n']
    } else if c == '\u{c}' {
        seq!['\\', 'f']
    } else if c == '\r' {
        seq!['\\', 'r']
    } else if (c as int) < 0x20 {
        seq!['\\', 'u', '0', '0', hex_digit(c as int / 16), hex_digit(c as int % 16)]
    } else {
        seq![c]
    }
}

/// The characters of `s`, each as it stands inside a JSON string literal.
pub open spec fn escaped_text(s: Seq<char>) -> Seq<char>
    decreases s.len(),
{
    if s.len() == 0 {
        Seq::empty()
    } else {
        escaped_text(s.drop_last()) + escaped_char(s.last())
    }
}

/// The JSON string literal of the text `s`: a quote, the escaped
/// characters, a quote.
pub open spec fn json_string_text(s: Seq<char>) -> Seq<char> {
    seq!['"'] + escaped_text(s) + seq!['"']
}

/// Whether `c` stands for itself inside a JSON string literal.
pub open spec fn is_plain(c: char) -> bool {
    c != '"' && c != '\\' && (c as int) >= 0x20
}

/// A text without quotes, backslashes and control characters is its own
/// escaped form.
pub proof fn lemma_escaped_plain(s: Seq<char>)
    requires
        forall|i: int| 0 <= i < s.len() ==> is_plain(#[trigger] s[i]),
    ensures
        escaped_text(s) == s,
        json_string_text(s) == seq!['"'] + s + seq!['"'],
    decreases s.len(),
{
    if s.len() > 0 {
        lemma_escaped_plain(s.drop_last());
        assert(is_plain(s.last()));
        assert(escaped_char(s.last()) =~= seq![s.last()]);
        assert(s.drop_last() + seq![s.last()] =~= s);
    } else {
        assert(escaped_text(s) =~= s);
    }
}

/// How `reqwest::StatusCode` writes out the status `code`: the number and
/// its reason phrase; `None` where `code` is no status.
pub uninterp spec fn status_text(code: nat) -> Option<Seq<char>>;

/// The compact text that `serde_json` writes for the document it reads from
/// `text`; `None` where `text` is no JSON document.
pub uninterp spec fn json_normal_form(text: Seq<char>) -> Option<Seq<char>>;

/// Calls `serde_json::to_string` on a string slice. Trusted: the result is
/// the string literal that `json_string_text` describes, which is how
/// `serde_json` escapes a string byte by byte. Writing a string into memory
/// has no failure of its own, so the default is never taken.
#[verifier::external_body]
pub(crate) fn encode_json_string(s: &str) -> (r: String)
    ensures
        r@ == json_string_text(s@),
{
    serde_json::to_string(s).unwrap_or_default()
}

/// Calls `serde_json::from_str` for a `serde_json::Value` and hands the
/// document back as compact text through `serde_json::to_string`. Trusted:
/// the outcome depends on the text alone, and is what `json_normal_form`
/// names. Nothing is claimed of which texts are documents.
#[verifier::external_body]
pub(crate) fn normalize_json(text: &str) -> (r: Option<String>)
    ensures
        match r {
            Some(doc) => json_normal_form(text@) == Some(doc@),
            None => json_normal_form(text@) is None,
        },
{
    match serde_json::from_str::<serde_json::Value>(text) {
        Ok(doc) => serde_json::to_string(&doc).ok(),
        Err(_) => None,
    }
}

/// Calls `reqwest::StatusCode::from_u16` and writes the status out as its
/// `Display` does. Trusted: the outcome depends on the number alone, and is
/// what `status_text` names; the numbers from 100 to 999 are the statuses.
/// Nothing is claimed of the phrases.
#[verifier::external_body]
pub(crate) fn status_line(code: u16) -> (r: Option<String>)
    ensures
        match r {
            Some(line) => status_text(code as nat) == Some(line@),
            None => status_text(code as nat) is None,
        },
        r is Some <==> 100 <= code <= 999,
{
    match reqwest::StatusCode::from_u16(code) {
        Ok(status) => Some(status.to_string()),
        Err(_) => None,
    }
}

} // verus!
