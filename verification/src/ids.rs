//! Fresh identifiers.

use vstd::prelude::*;

use crate::domain::values::{is_ascii_alnum, is_ascii_digit};

verus! {

pub open spec fn is_lower_hex(c: char) -> bool {
    is_ascii_digit(c) || ('a' <= c && c <= 'f')
}

/// `uuid::Uuid::new_v4().to_string()`: a fresh random identifier. Nothing is
/// claimed of its text.
#[verifier::external_body]
pub(crate) fn new_id() -> (r: String) {
    uuid::Uuid::new_v4().to_string()
}

/// `uuid::Uuid::new_v4().simple().to_string()`: a fresh random UUID in its
/// simple form, which the `uuid` crate writes as `Simple::LENGTH` (32)
/// lowercase hexadecimal digits.
#[verifier::external_body]
pub(crate) fn new_simple_uuid() -> (r: String)
    ensures
        r@.len() == 32,
        forall|i: int| 0 <= i < 32 ==> is_lower_hex(#[trigger] r@[i]),
{
    uuid::Uuid::new_v4().simple().to_string()
}

/// A candidate invitation code: the first ten characters of a fresh simple UUID.
pub fn invite_code_candidate() -> (r: String)
    ensures
        r@.len() == 10,
        forall|i: int| 0 <= i < 10 ==> is_ascii_alnum(#[trigger] r@[i]),
{
    let full = new_simple_uuid();
    let head = full.as_str().substring_char(0, 10);
    let r = String::from_str(head);
    assert forall|i: int| 0 <= i < 10 implies is_ascii_alnum(#[trigger] r@[i]) by {
        assert(r@[i] == full@[i]);
        assert(is_lower_hex(full@[i]));
    }
    r
}

} // verus!
