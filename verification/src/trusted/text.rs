//! The call into the standard library's Unicode case tables.
//!
//! Nothing in this file is proved. The lower-case form of a text depends on
//! the text alone and follows the Unicode tables; it is named, so that
//! contracts can speak of it.
use vstd::prelude::*;

verus! {

/// What `str::to_lowercase` returns for a text: its lower-case form by the
/// Unicode rules.
pub uninterp spec fn lowercased(text: Seq<char>) -> Seq<char>;

/// `str::to_lowercase`.
#[verifier::external_body]
pub(crate) fn to_lowercase(text: &str) -> (r: String)
    ensures
        r@ == lowercased(text@),
{
    text.to_lowercase()
}

} // verus!
