//! Optional texts.

use vstd::prelude::*;

verus! {

/// The characters of an optional string slice.
pub open spec fn optional_str(text: Option<&str>) -> Option<Seq<char>> {
    match text {
        Some(s) => Some(s@),
        None => None,
    }
}

/// The characters of an optional string.
pub open spec fn optional_string(text: Option<String>) -> Option<Seq<char>> {
    match text {
        Some(s) => Some(s@),
        None => None,
    }
}

/// An optional string slice as an optional string of its own.
pub fn owned_text(text: &Option<&str>) -> (owned: Option<String>)
    ensures
        optional_string(owned) == optional_str(*text),
{
    match text {
        Some(s) => Some((*s).to_owned()),
        None => None,
    }
}

} // verus!
