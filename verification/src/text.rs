//! Text from bytes.

use vstd::prelude::*;
use vstd::string::StringExecFns;
use vstd::utf8::{decode_utf8, valid_utf8};

verus! {

/// How std describes what is wrong with bytes that are not UTF-8: the text
/// that `std::string::FromUtf8Error` displays for them.
pub uninterp spec fn utf8_error_text(bytes: Seq<u8>) -> Seq<char>;

/// Reads bytes as UTF-8 with `String::from_utf8`.
///
/// As std documents it, the call yields a string exactly where the bytes are
/// valid UTF-8, and the string then holds the characters that the bytes
/// encode. Otherwise it yields an error, which is handed on as the text that
/// the error displays; the wording of that text is std's and is only named
/// here, not spelled out.
#[verifier::external_body]
pub(crate) fn text_from_utf8(bytes: Vec<u8>) -> (result: Result<String, String>)
    ensures
        match result {
            Ok(text) => valid_utf8(bytes@) && text@ == decode_utf8(bytes@),
            Err(reason) => !valid_utf8(bytes@) && reason@ == utf8_error_text(bytes@),
        },
{
    match String::from_utf8(bytes) {
        Ok(text) => Ok(text),
        Err(error) => Err(error.to_string()),
    }
}

/// What reading bytes as UTF-8 gives: the characters that they encode, or
/// the description of what is wrong with them.
pub open spec fn decoded(bytes: Seq<u8>) -> Result<Seq<char>, Seq<char>> {
    if valid_utf8(bytes) {
        Ok(decode_utf8(bytes))
    } else {
        Err(utf8_error_text(bytes))
    }
}

/// The complaint about a field that is not UTF-8: what the field is, and
/// what is wrong with its bytes.
pub open spec fn invalid_utf8_message(field: Seq<char>, detail: Seq<char>) -> Seq<char> {
    "Invalid "@ + field + " UTF-8: "@ + detail
}

/// Words the complaint about a field that is not UTF-8.
pub fn invalid_utf8(field: &str, detail: &str) -> (message: String)
    ensures
        message@ == invalid_utf8_message(field@, detail@),
{
    String::from_str("Invalid ").concat(field).concat(" UTF-8: ").concat(detail)
}

/// Reads the bytes of a named field as UTF-8, and words the complaint where
/// they are not.
pub fn read_field(field: &str, bytes: Vec<u8>) -> (result: Result<String, String>)
    ensures
        match result {
            Ok(text) => decoded(bytes@) == Ok::<Seq<char>, Seq<char>>(text@),
            Err(message) => decoded(bytes@) matches Err(detail) && message@
                == invalid_utf8_message(field@, detail),
        },
{
    match text_from_utf8(bytes) {
        Ok(text) => Ok(text),
        Err(detail) => Err(invalid_utf8(field, detail.as_str())),
    }
}

} // verus!
