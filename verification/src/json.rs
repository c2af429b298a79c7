//! JSON string decoding through `serde_json`.
use vstd::prelude::*;

verus! {

/// What `serde_json::from_str::<String>` gives for a text: the decoded string,
/// or the message of its error.
pub uninterp spec fn json_string_decoding(text: Seq<char>) -> Result<Seq<char>, Seq<char>>;

/// A decoded string or the message of the decoding error.
pub type JsonStringDecoding = Result<String, String>;

pub open spec fn decoded_text(s: Seq<char>) -> Result<Seq<char>, Seq<char>> {
    Ok(s)
}

pub open spec fn decoding_error(m: Seq<char>) -> Result<Seq<char>, Seq<char>> {
    Err(m)
}

/// A JSON string literal without escapes: a quote, characters that are neither
/// quotes, backslashes nor control characters, and a closing quote.
pub open spec fn is_plain_json_string(text: Seq<char>) -> bool {
    &&& text.len() >= 2
    &&& text[0] == '"'
    &&& text[text.len() - 1] == '"'
    &&& forall|i: int|
        1 <= i < text.len() - 1 ==> #[trigger] text[i] != '"' && text[i] != '\\' && text[i]
            >= ' '
}

/// Decodes a JSON document holding one string with `serde_json::from_str::<String>`.
/// Trusted: the result, and the error's message, are those that serde_json gives
/// for the text (named by `json_string_decoding`); for a quoted text without
/// escapes or control characters, serde_json returns the characters between the quotes.
#[verifier::external_body]
pub(crate) fn decode_json_string(text: &str) -> (decoded: JsonStringDecoding)
    ensures
        decoded matches Ok(s) ==> json_string_decoding(text@) == decoded_text(s@),
        decoded matches Err(m) ==> json_string_decoding(text@) == decoding_error(m@),
        decoded is Err ==> !is_plain_json_string(text@),
        decoded matches Ok(s) ==> (is_plain_json_string(text@) ==> s@ == text@.drop_first().drop_last()),
{
    match serde_json::from_str::<String>(text) {
        Ok(value) => Ok(value),
        Err(error) => Err(error.to_string()),
    }
}

} // verus!
