//! Execution and request identifiers.
use vstd::prelude::*;

verus! {

/// The text of the nil UUID in its hyphenated lower-case form.
pub open spec fn nil_id() -> Seq<char> {
    "00000000-0000-0000-0000-000000000000"@
}

/// Text of `uuid::Uuid::default()`. In `uuid` the default UUID is the nil
/// UUID (all bits zero), and `to_string` writes it hyphenated in lower case.
#[verifier::external_body]
pub fn default_id_text() -> (s: String)
    ensures
        s@ == nil_id(),
{
    uuid::Uuid::default().to_string()
}

} // verus!
