//! Display metadata for a started song: every missing or unreadable tag
//! field falls back to a fixed placeholder, so tag trouble never disturbs
//! playback.

use vstd::prelude::*;

use vstd::string::StringExecFns;

verus! {

/// The placeholder shown for a missing or unreadable tag field.
pub open spec fn placeholder() -> Seq<char> {
    "???"@
}

/// A tag field prepared for display: the field itself, or the placeholder
/// when the tag reader could not supply it.
pub fn field_or_placeholder(f: Option<String>) -> (r: String)
    ensures
        r@ == match f {
            Some(s) => s@,
            None => placeholder(),
        },
{
    match f {
        Some(s) => s,
        None => String::from_str("???"),
    }
}

} // verus!
