//! Fresh record identifiers.
use vstd::prelude::*;

verus! {

/// A fresh random (version 4) UUID in its hyphenated text form, through
/// `uuid::Uuid::new_v4`. It depends on chance: only its length, 36
/// characters, is stated.
#[verifier::external_body]
pub(crate) fn new_id() -> (r: String)
    ensures
        r@.len() == 36,
{
    uuid::Uuid::new_v4().to_string()
}

} // verus!
