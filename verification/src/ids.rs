//! Fresh identifiers for prescriptions, aggregates and commands.

use vstd::prelude::*;

verus! {

/// The length of every identifier that [`new_id`] makes.
pub const ID_LENGTH: usize = 26;

/// A character that an identifier may hold: a digit or a capital letter.
pub open spec fn is_id_char(c: char) -> bool {
    48 <= c as u32 <= 57 || 65 <= c as u32 <= 90
}

/// The shape of every identifier that [`new_id`] makes: 26 characters, each
/// a digit or a capital letter.
pub open spec fn is_id(text: Seq<char>) -> bool {
    &&& text.len() == ID_LENGTH
    &&& forall|i: int| 0 <= i < text.len() ==> is_id_char(#[trigger] text[i])
}

/// Makes a fresh identifier with `ulid::Ulid::new` and renders it with
/// `Ulid::to_string`.
///
/// The identifier is drawn from the clock and from chance, so nothing is
/// claimed of which one it is: only its shape, which the encoding in ulid's
/// source gives to every identifier. It fills 26 places, each from an
/// alphabet of digits and capital letters.
#[verifier::external_body]
pub(crate) fn new_id() -> (id: String)
    ensures
        is_id(id@),
{
    ulid::Ulid::new().to_string()
}

} // verus!
