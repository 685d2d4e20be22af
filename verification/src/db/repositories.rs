//! Validation and record assembly for projects, captures and decisions,
//! and the text rules they share.
pub mod captures;
pub mod claims;
pub mod projects;

use crate::domain::project::AuraError;
use crate::text::{byte_len, decimal, decimal_text, is_blank, joined, trim_text, trimmed, utf8_len};
use vstd::prelude::*;

verus! {

/// Validates a required text field: trimmed, it must be non-empty and at
/// most `limit` bytes long. Gives the trimmed text.
pub fn required_text(field: &str, value: &str, limit: usize) -> (r: Result<String, AuraError>)
    ensures
        is_blank(value@) ==> (r matches Err(e) && e.is_invalid_input_with(
            field@ + " is required before Aura can save it locally."@,
        )),
        !is_blank(value@) && utf8_len(trimmed(value@)) > limit ==> (r matches Err(e)
            && e.is_invalid_input_with(
            field@ + (" must be "@ + (decimal_text(limit as nat) + " characters or fewer."@)),
        )),
        !is_blank(value@) && utf8_len(trimmed(value@)) <= limit ==> (r matches Ok(text) && text@
            == trimmed(value@)),
{
    let text = trim_text(value);
    if text.as_str().is_empty() {
        return Err(
            AuraError::InvalidInput(joined(field, " is required before Aura can save it locally.")),
        );
    }
    if byte_len(&text) > limit {
        let digits = decimal(limit as u64);
        let tail = joined(digits.as_str(), " characters or fewer.");
        let middle = joined(" must be ", tail.as_str());
        return Err(AuraError::InvalidInput(joined(field, middle.as_str())));
    }
    Ok(text)
}

/// An optional text, trimmed; blank text counts as absent.
pub open spec fn optional_text_of(value: Option<String>) -> Option<Seq<char>> {
    match value {
        Some(v) => if is_blank(v@) {
            None
        } else {
            Some(trimmed(v@))
        },
        None => None,
    }
}

/// Normalizes an optional text field: trimmed, and absent when blank.
pub fn optional_text(value: Option<String>) -> (r: Option<String>)
    ensures
        match optional_text_of(value) {
            Some(t) => r matches Some(s) && s@ == t,
            None => r is None,
        },
{
    match value {
        Some(v) => {
            let text = trim_text(v.as_str());
            if text.as_str().is_empty() {
                None
            } else {
                Some(text)
            }
        },
        None => None,
    }
}

/// The view of an optional text.
pub open spec fn text_view(value: Option<String>) -> Option<Seq<char>> {
    match value {
        Some(v) => Some(v@),
        None => None,
    }
}

} // verus!
