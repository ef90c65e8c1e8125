//! The rule for a single optional setting: the first source that holds a
//! value wins.

use vstd::prelude::*;

verus! {

/// The value that survives when `primary` is layered over `secondary`:
/// `primary` whenever it is present, whatever it holds, and `secondary`
/// otherwise.
pub open spec fn first_present<T>(primary: Option<T>, secondary: Option<T>) -> Option<T> {
    if primary.is_some() {
        primary
    } else {
        secondary
    }
}

/// The characters of an optional string.
pub open spec fn text(value: Option<String>) -> Option<Seq<char>> {
    match value {
        Some(s) => Some(s@),
        None => None,
    }
}

/// Fills `primary` from `secondary` where `primary` is absent.
///
/// Trusted: this is `merge::Merge::merge` on `Option<T>`. The contract claims
/// what that impl does: a present `primary` is left untouched and `secondary`
/// is dropped; an absent `primary` becomes `secondary`.
#[verifier::external_body]
pub(crate) fn merge_leaf<T>(primary: &mut Option<T>, secondary: Option<T>)
    ensures
        *final(primary) == first_present(*old(primary), secondary),
{
    merge::Merge::merge(primary, secondary);
}

} // verus!
