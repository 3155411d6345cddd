//! Identifiers that tell one build from another.

use vstd::prelude::*;

verus! {

/// Number of characters in a request identifier.
pub open spec fn request_id_len() -> nat {
    36
}

/// Draws a fresh random identifier for one build.
///
/// Trusted: calls `uuid::Uuid::new_v4` and renders the value with the
/// crate's `Display`, which writes the lower-case hyphenated form.  That form
/// always has 36 characters; which ones is left to chance, so nothing more is
/// claimed, and two calls are not promised to differ.
#[verifier::external_body]
pub(crate) fn new_request_id() -> (id: String)
    ensures
        id@.len() == request_id_len(),
{
    uuid::Uuid::new_v4().to_string()
}

} // verus!
