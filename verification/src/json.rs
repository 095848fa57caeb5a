use vstd::prelude::*;

use crate::signing::hex_digit;

verus! {

/// How `serde_json` writes one character inside a string literal: quote and
/// backslash get a backslash, the control characters below U+0020 get their
/// short escape or `\u00XX` with lowercase hex, everything else stands as
/// it is.
pub open spec fn json_escape_char(c: char) -> Seq<char> {
    if c == '"' {
        seq!['\\', '"']
    } else if c == '\\' {
        seq!['\\', '\\']
    } else if c == '\u{8}' {
        seq!['\\', 'b']
    } else if c == '\u{c}' {
        seq!['\\', 'f']
    } else if c == '\n' {
        seq!['\\', 'n']
    } else if c == '\r' {
        seq!['\\', 'r']
    } else if c == '\t' {
        seq!['\\', 't']
    } else if (c as u32) < 32 {
        seq!['\\', 'u', '0', '0', hex_digit(((c as u32) / 16) as u8), hex_digit(((c as u32) % 16) as u8)]
    } else {
        seq![c]
    }
}

/// The characters of `s`, each escaped for a JSON string literal.
pub open spec fn json_escaped(s: Seq<char>) -> Seq<char>
    decreases s.len(),
{
    if s.len() == 0 {
        Seq::empty()
    } else {
        json_escape_char(s[0]) + json_escaped(s.drop_first())
    }
}

/// The JSON string literal for `s`.
pub open spec fn json_string(s: Seq<char>) -> Seq<char> {
    seq!['"'] + json_escaped(s) + seq!['"']
}

/// Calls `serde_json::to_string` on a `str`: the string literal that
/// `serde_json` writes, quotes included (escaping as `json_escape_char`
/// says, as its `format_escaped_str_contents` and `ESCAPE` table show).
/// Serializing a `str` into memory does not fail.
#[verifier::external_body]
pub(crate) fn json_quote(s: &str) -> (r: String)
    ensures
        r@ == json_string(s@),
{
    match serde_json::to_string(s) {
        Ok(t) => t,
        Err(_) => String::new(),
    }
}

/// A character that a JSON string literal holds unchanged.
pub open spec fn json_plain_char(c: char) -> bool {
    c != '"' && c != '\\' && (c as u32) >= 32
}

/// Text made of plain characters is written unchanged between quotes.
pub proof fn law_plain_text_is_quoted_unchanged(s: Seq<char>)
    requires
        forall|i: int| 0 <= i < s.len() ==> json_plain_char(#[trigger] s[i]),
    ensures
        json_escaped(s) == s,
        json_string(s) == seq!['"'] + s + seq!['"'],
    decreases s.len(),
{
    if s.len() > 0 {
        assert forall|i: int| 0 <= i < s.drop_first().len() implies json_plain_char(#[trigger] s.drop_first()[i]) by {
            assert(s.drop_first()[i] == s[i + 1]);
        }
        law_plain_text_is_quoted_unchanged(s.drop_first());
        assert(json_escape_char(s[0]) == seq![s[0]]);
        assert(seq![s[0]] + s.drop_first() =~= s);
    }
}

/// What `serde_json` reads at `text[outer][inner]`: `Err` with the error's
/// text when `text` is not JSON, otherwise the string found there, or `None`
/// when that place holds no string.
pub uninterp spec fn json_str_at(text: Seq<char>, outer: Seq<char>, inner: Seq<char>) -> Result<Option<Seq<char>>, Seq<char>>;

/// Calls `serde_json::from_str` into a `serde_json::Value`, then indexes it
/// by `outer` and `inner` and reads the place with `Value::as_str`; a parse
/// error comes back as its `Display` text. The result is named
/// `json_str_at(text, outer, inner)`. Indexing a `Value` by a key does not
/// panic: a missing key gives `Null`.
#[verifier::external_body]
pub(crate) fn json_lookup_str(text: &str, outer: &str, inner: &str) -> (r: Result<Option<String>, String>)
    ensures
        match r {
            Ok(Some(v)) => json_str_at(text@, outer@, inner@) == Ok::<Option<Seq<char>>, Seq<char>>(Some(v@)),
            Ok(None) => json_str_at(text@, outer@, inner@) == Ok::<Option<Seq<char>>, Seq<char>>(None),
            Err(e) => json_str_at(text@, outer@, inner@) == Err::<Option<Seq<char>>, Seq<char>>(e@),
        },
{
    match serde_json::from_str::<serde_json::Value>(text) {
        Ok(v) => match v[outer][inner].as_str() {
            Some(s) => Ok(Some(s.to_string())),
            None => Ok(None),
        },
        Err(e) => Err(e.to_string()),
    }
}

} // verus!
