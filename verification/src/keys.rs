//! Where uploaded prescriptions lie in object storage: keys of the form
//! `prescriptions/` dispense id `/` name, and the locations made from them.

use crate::dispenses::aggregate::text_model;
use crate::ids::{is_id, is_id_char};
use vstd::prelude::*;
use vstd::string::{StrSliceExecFns, StringExecFns};

verus! {

/// What separates the segments of a key.
pub const SEPARATOR: char = '/';

/// The first segment of every key under which a prescription is uploaded.
pub const PRESCRIPTIONS: &'static str = "prescriptions";

/// The scheme in front of a location in object storage.
pub const LOCATION_SCHEME: &'static str = "s3://";

/// The seconds for which a permission to upload stays good.
pub const UPLOAD_EXPIRY_SECONDS: u64 = 3600;

/// The length of the first segment of a text: the place of its first
/// separator, or its whole length where it has none.
pub open spec fn segment_end(text: Seq<char>) -> int
    decreases text.len(),
{
    if text.len() == 0 || text[0] == SEPARATOR {
        0
    } else {
        1 + segment_end(text.skip(1))
    }
}

/// The first segment of a text: what stands before its first separator.
pub open spec fn first_segment(text: Seq<char>) -> Seq<char> {
    text.take(segment_end(text))
}

/// What follows the first separator of a text, if it has one.
pub open spec fn after_first_segment(text: Seq<char>) -> Option<Seq<char>> {
    if segment_end(text) < text.len() {
        Some(text.skip(segment_end(text) + 1))
    } else {
        None
    }
}

/// The dispense that a key belongs to.
///
/// The key of a prescription reads `prescriptions`, a separator, the id of
/// the dispense, a separator, and a name. The id is a segment and is not
/// empty: an aggregate without an id has never been started. The name is
/// free, and may be empty or hold separators of its own. Every other key
/// belongs to no dispense: one with another first segment, one that ends
/// with the id, and one whose second segment is empty.
pub open spec fn dispense_id_of_key(key: Seq<char>) -> Option<Seq<char>> {
    match after_first_segment(key) {
        Some(rest) => if first_segment(key) == PRESCRIPTIONS@ && first_segment(rest).len() > 0
            && after_first_segment(rest) is Some {
            Some(first_segment(rest))
        } else {
            None
        },
        None => None,
    }
}

/// The key under which a prescription of a dispense is uploaded.
pub open spec fn upload_key_of(dispense_id: Seq<char>, prescription_id: Seq<char>) -> Seq<char> {
    PRESCRIPTIONS@ + seq![SEPARATOR] + dispense_id + seq![SEPARATOR] + prescription_id
}

/// The location of an object: the scheme, the bucket, a separator, the key.
pub open spec fn location_of(bucket: Seq<char>, key: Seq<char>) -> Seq<char> {
    LOCATION_SCHEME@ + bucket + seq![SEPARATOR] + key
}

/// A text is free of separators.
pub open spec fn is_segment(text: Seq<char>) -> bool {
    forall|i: int| 0 <= i < text.len() ==> text[i] != SEPARATOR
}

/// The first segment ends at the first separator: at the one place before
/// which there is none and at which there is one, or the text ends.
pub proof fn lemma_segment_end(text: Seq<char>, end: int)
    requires
        0 <= end <= text.len(),
        forall|i: int| 0 <= i < end ==> text[i] != SEPARATOR,
        end < text.len() ==> text[end] == SEPARATOR,
    ensures
        segment_end(text) == end,
    decreases text.len(),
{
    if end > 0 {
        let rest = text.skip(1);
        assert forall|i: int| 0 <= i < end - 1 implies rest[i] != SEPARATOR by {
            assert(rest[i] == text[i + 1]);
        }
        lemma_segment_end(rest, end - 1);
    }
}

/// The first segment lies within the text and holds no separator.
pub proof fn lemma_first_segment(text: Seq<char>)
    ensures
        0 <= segment_end(text) <= text.len(),
        is_segment(first_segment(text)),
        segment_end(text) < text.len() ==> text[segment_end(text)] == SEPARATOR,
    decreases text.len(),
{
    if !(text.len() == 0 || text[0] == SEPARATOR) {
        let rest = text.skip(1);
        lemma_first_segment(rest);
        assert forall|i: int| 0 <= i < first_segment(text).len() implies first_segment(text)[i]
            != SEPARATOR by {
            if i > 0 {
                assert(first_segment(text)[i] == first_segment(rest)[i - 1]);
            }
        }
    }
}

/// A key that was made for a dispense leads back to it: where the id of the
/// dispense is not empty and holds no separator, the key under which its
/// prescriptions are uploaded belongs to that dispense, whatever the
/// prescription's id.
pub proof fn lemma_upload_key_round_trip(dispense_id: Seq<char>, prescription_id: Seq<char>)
    requires
        is_segment(dispense_id),
        dispense_id.len() > 0,
    ensures
        dispense_id_of_key(upload_key_of(dispense_id, prescription_id)) == Some(dispense_id),
{
    reveal_strlit("prescriptions");
    let key = upload_key_of(dispense_id, prescription_id);
    let head = PRESCRIPTIONS@.len() as int;
    lemma_segment_end(key, head);
    assert(first_segment(key) =~= PRESCRIPTIONS@);
    let rest = key.skip(head + 1);
    assert(rest =~= dispense_id + seq![SEPARATOR] + prescription_id);
    lemma_segment_end(rest, dispense_id.len() as int);
    assert(first_segment(rest) =~= dispense_id);
}

/// The keys of a dispense are those that were made for it, and no other: a
/// key belongs to a dispense exactly where it reads `prescriptions`, a
/// separator, the id of the dispense, a separator and some name, the id
/// being a segment that is not empty.
pub proof fn lemma_prescription_key_shape(key: Seq<char>, dispense_id: Seq<char>)
    ensures
        dispense_id_of_key(key) == Some(dispense_id) <==> (is_segment(dispense_id)
            && dispense_id.len() > 0 && exists|name: Seq<char>|
            key == #[trigger] upload_key_of(dispense_id, name)),
{
    if dispense_id_of_key(key) == Some(dispense_id) {
        lemma_first_segment(key);
        let rest = after_first_segment(key).unwrap();
        lemma_first_segment(rest);
        let name = after_first_segment(rest).unwrap();
        assert(key =~= first_segment(key) + seq![SEPARATOR] + rest);
        assert(rest =~= dispense_id + seq![SEPARATOR] + name);
        assert(key =~= upload_key_of(dispense_id, name));
    }
    if is_segment(dispense_id) && dispense_id.len() > 0 && exists|name: Seq<char>|
        key == #[trigger] upload_key_of(dispense_id, name) {
        let name = choose|name: Seq<char>| key == #[trigger] upload_key_of(dispense_id, name);
        lemma_upload_key_round_trip(dispense_id, name);
    }
}

/// A fresh identifier is a segment, and not an empty one: it can stand in a
/// key, and an aggregate that goes by it has been started.
pub proof fn lemma_id_is_segment(id: Seq<char>)
    requires
        is_id(id),
    ensures
        is_segment(id),
        id.len() > 0,
{
    assert forall|i: int| 0 <= i < id.len() implies id[i] != SEPARATOR by {
        assert(is_id_char(id[i]));
    }
}

/// The place of the first separator of a text, counted in characters, or
/// the number of its characters where it has none.
fn find_segment_end(text: &str) -> (end: usize)
    ensures
        end == segment_end(text@),
        end <= text@.len(),
{
    let length = text.unicode_len();
    let mut i: usize = 0;
    for c in it: text.chars()
        invariant
            text@.len() == length,
            i == it.index(),
            it.seq() == text@,
            forall|k: int| 0 <= k < i ==> text@[k] != SEPARATOR,
    {
        if c == SEPARATOR {
            proof {
                lemma_segment_end(text@, i as int);
            }
            return i;
        }
        i += 1;
    }
    proof {
        lemma_segment_end(text@, i as int);
    }
    i
}

/// Reads off a key the dispense that it belongs to, if it is the key of a
/// prescription: `prescriptions/d1/scan.png` belongs to `d1`, while
/// `prescriptions/d1`, `prescriptions//scan.png` and `unrelated/file.png`
/// belong to none.
pub fn dispense_id_of(key: &str) -> (dispense_id: Option<String>)
    ensures
        text_model(dispense_id) == dispense_id_of_key(key@),
{
    let length = key.unicode_len();
    let end = find_segment_end(key);
    if end == length {
        return None;
    }
    let head = key.substring_char(0, end);
    if !(String::from_str(head) == String::from_str(PRESCRIPTIONS)) {
        return None;
    }
    let rest = key.substring_char(end + 1, length);
    let id_end = find_segment_end(rest);
    if id_end == 0 || id_end == length - end - 1 {
        return None;
    }
    Some(String::from_str(rest.substring_char(0, id_end)))
}

/// Makes the key under which a prescription of a dispense is uploaded.
pub fn upload_key(dispense_id: &str, prescription_id: &str) -> (key: String)
    ensures
        key@ == upload_key_of(dispense_id@, prescription_id@),
{
    proof {
        reveal_strlit("/");
        assert("/"@ =~= seq![SEPARATOR]);
    }
    String::from_str(PRESCRIPTIONS).concat("/").concat(dispense_id).concat("/").concat(
        prescription_id,
    )
}

/// Makes the location of an object from its bucket and its key.
pub fn location(bucket: &str, key: &str) -> (url: String)
    ensures
        url@ == location_of(bucket@, key@),
{
    proof {
        reveal_strlit("/");
        assert("/"@ =~= seq![SEPARATOR]);
    }
    String::from_str(LOCATION_SCHEME).concat(bucket).concat("/").concat(key)
}

} // verus!
