//! The one piece of JSON text that the dispatcher writes itself: the quoted
//! form of a message.

use vstd::prelude::*;

verus! {

/// The JSON string literal for a text: the text between double quotes, with
/// the escapes that the serializer chooses.
pub uninterp spec fn json_string_text(text: Seq<char>) -> Seq<char>;

/// Whether `quoted` can be what quoting `text` returned: the JSON string
/// literal for it, or any error.
pub open spec fn quotes(quoted: Result<Seq<char>, Seq<char>>, text: Seq<char>) -> bool {
    quoted matches Ok(literal) ==> literal == json_string_text(text)
}

/// Quotes a text with `serde_json::to_string`. Where the serializer succeeds,
/// what it wrote is the JSON string literal for the text; where it fails, the
/// error is its message.
#[verifier::external_body]
pub(crate) fn quote_json(text: &str) -> (quoted: Result<String, String>)
    ensures
        quoted matches Ok(literal) ==> literal@ == json_string_text(text@),
{
    match serde_json::to_string(text) {
        Ok(literal) => Ok(literal),
        Err(err) => Err(err.to_string()),
    }
}

} // verus!
