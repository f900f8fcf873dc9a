//! Views of `Option` and `Result` through the views of what they hold.

use vstd::prelude::*;

verus! {

/// A result with its value and its error taken by view.
pub open spec fn result_view<T: View, E: View>(result: Result<T, E>) -> Result<T::V, E::V> {
    match result {
        Ok(value) => Ok(value@),
        Err(error) => Err(error@),
    }
}

/// An option with its value taken by view.
pub open spec fn option_view<T: View>(value: Option<T>) -> Option<T::V> {
    match value {
        Some(value) => Some(value@),
        None => None,
    }
}

} // verus!
