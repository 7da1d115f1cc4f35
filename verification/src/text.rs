//! Text at the native boundary: query bytes going in, column bytes coming out.

use vstd::prelude::*;
use vstd::string::StrSliceExecFns;
use vstd::string::StringSliceAdditionalSpecFns;
use vstd::utf8::decode_utf8;
use vstd::utf8::encode_utf8;
use vstd::utf8::encode_utf8_decode_utf8;
use vstd::utf8::valid_utf8;

use crate::error::FfiError;

verus! {

/// Whether `bytes` holds the terminator byte of the native transport.
pub open spec fn has_terminator(bytes: Seq<u8>) -> bool {
    exists|i: int| 0 <= i < bytes.len() && bytes[i] == 0u8
}

/// The bytes of a column as the native side returned them, in specifications.
pub open spec fn cell_bytes(cell: Option<Vec<u8>>) -> Option<Seq<u8>> {
    match cell {
        Some(bytes) => Some(bytes@),
        None => None,
    }
}

/// The text that a column holds: the decoded bytes, or nothing where the
/// native side gave no bytes or gave bytes that are not UTF-8.
pub open spec fn spec_column_text(cell: Option<Seq<u8>>) -> Option<Seq<char>> {
    match cell {
        Some(bytes) => if valid_utf8(bytes) {
            Some(decode_utf8(bytes))
        } else {
            None
        },
        None => None,
    }
}

/// The text of a column as it stands in a row: an absent value is empty.
pub open spec fn spec_cell_text(cell: Option<Seq<u8>>) -> Seq<char> {
    match spec_column_text(cell) {
        Some(text) => text,
        None => Seq::empty(),
    }
}

/// Trusted: `String::from_utf8` of the standard library. It accepts exactly
/// the byte strings that are well-formed UTF-8 and then yields the string
/// that those bytes encode; its error is dropped here.
#[verifier::external_body]
fn string_from_utf8(bytes: Vec<u8>) -> (text: Option<String>)
    ensures
        text is Some <==> valid_utf8(bytes@),
        text is Some ==> text->0@ == decode_utf8(bytes@),
{
    String::from_utf8(bytes).ok()
}

/// The UTF-8 bytes of `query`, as they are handed to the native side.
pub fn query_bytes(query: &str) -> (bytes: Vec<u8>)
    ensures
        bytes@ == query.spec_bytes(),
{
    query.as_bytes_vec()
}

/// Tells whether `bytes` holds the terminator byte.
pub fn bytes_contain_terminator(bytes: &[u8]) -> (found: bool)
    ensures
        found == has_terminator(bytes@),
{
    let mut i: usize = 0;
    while i < bytes.len()
        invariant
            i <= bytes@.len(),
            forall|j: int| 0 <= j < i ==> bytes@[j] != 0u8,
        decreases bytes@.len() - i,
    {
        if bytes[i] == 0 {
            return true;
        }
        i += 1;
    }
    false
}

/// Tells whether `query` holds the terminator byte, in which case it cannot
/// cross the native boundary.
pub fn contains_terminator(query: &str) -> (found: bool)
    ensures
        found == has_terminator(query.spec_bytes()),
{
    bytes_contain_terminator(query.as_bytes())
}

/// Whether two texts are the same.
pub fn text_equals(left: &str, right: &str) -> (same: bool)
    ensures
        same == (left@ == right@),
{
    let a = left.as_bytes();
    let b = right.as_bytes();
    proof {
        encode_utf8_decode_utf8(left@);
        encode_utf8_decode_utf8(right@);
    }
    if a.len() != b.len() {
        return false;
    }
    let mut i: usize = 0;
    while i < a.len()
        invariant
            i <= a@.len(),
            a@.len() == b@.len(),
            a@ == encode_utf8(left@),
            b@ == encode_utf8(right@),
            decode_utf8(encode_utf8(left@)) == left@,
            decode_utf8(encode_utf8(right@)) == right@,
            forall|j: int| 0 <= j < i ==> a@[j] == b@[j],
        decreases a@.len() - i,
    {
        if a[i] != b[i] {
            return false;
        }
        i += 1;
    }
    assert(a@ =~= b@);
    true
}

/// Decodes column bytes, which must be UTF-8.
pub fn decode_text(bytes: Vec<u8>) -> (text: Result<String, FfiError>)
    ensures
        valid_utf8(bytes@) ==> text is Ok && text->Ok_0@ == decode_utf8(bytes@),
        !valid_utf8(bytes@) ==> text == Err::<String, FfiError>(FfiError::InvalidText),
{
    match string_from_utf8(bytes) {
        Some(text) => Ok(text),
        None => Err(FfiError::InvalidText),
    }
}

/// The value of one column: nothing where the native side returned null, and
/// nothing where its bytes are not valid text.
pub fn column_text(cell: Option<Vec<u8>>) -> (text: Option<String>)
    ensures
        text.deep_view() == spec_column_text(cell_bytes(cell)),
{
    match cell {
        Some(bytes) => match decode_text(bytes) {
            Ok(text) => Some(text),
            Err(_) => None,
        },
        None => None,
    }
}

/// The value of one column as a row holds it, with an absent value rendered
/// as the empty string.
pub fn cell_text(cell: Option<Vec<u8>>) -> (text: String)
    ensures
        text@ == spec_cell_text(cell_bytes(cell)),
{
    match column_text(cell) {
        Some(text) => text,
        None => String::new(),
    }
}

} // verus!
