//! Views of values that std wraps.

use vstd::prelude::*;

verus! {

/// The view of an optional value: the view of what it holds, if anything.
pub open spec fn option_view<T: View>(value: Option<T>) -> Option<T::V> {
    match value {
        Some(inner) => Some(inner@),
        None => None,
    }
}

} // verus!
