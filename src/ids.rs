//! Identifiers: fresh random identifiers, their comparison and short forms.

use vstd::prelude::*;

verus! {

/// A character of the hyphenated lower-case form of a UUID.
pub open spec fn is_uuid_char(c: char) -> bool {
    ('0' <= c && c <= '9') || ('a' <= c && c <= 'f') || c == '-'
}

/// Relies on `uuid::Uuid::new_v4` and on the `Display` impl of `uuid::Uuid`:
/// a random version-4 UUID written in its hyphenated lower-case form, which
/// is always 36 characters of hex digits and hyphens.
#[verifier::external_body]
pub(crate) fn new_id() -> (r: String)
    ensures
        r@.len() == 36,
        forall|i: int| 0 <= i < r@.len() ==> is_uuid_char(#[trigger] r@[i]),
{
    uuid::Uuid::new_v4().to_string()
}

/// Whether two identifiers are the same text.
pub fn same_id(a: &str, b: &str) -> (r: bool)
    ensures
        r == (a@ == b@),
{
    let x = a.to_owned();
    let y = b.to_owned();
    x == y
}

/// `prefix` followed by the first eight characters of `full`.
pub fn short_id(prefix: &str, full: &str) -> (r: String)
    requires
        full@.len() >= 8,
    ensures
        r@ == prefix@ + full@.subrange(0, 8),
{
    let head = full.substring_char(0, 8);
    let base = prefix.to_owned();
    base.concat(head)
}

/// A fresh identifier of the form `prefix` followed by eight characters of a
/// random UUID.
pub fn new_short_id(prefix: &str) -> (r: String)
    ensures
        r@.len() == prefix@.len() + 8,
        r@.subrange(0, prefix@.len() as int) == prefix@,
        forall|i: int| prefix@.len() <= i < r@.len() ==> is_uuid_char(#[trigger] r@[i]),
{
    let full = new_id();
    let r = short_id(prefix, full.as_str());
    assert(r@.subrange(0, prefix@.len() as int) =~= prefix@);
    r
}

} // verus!
