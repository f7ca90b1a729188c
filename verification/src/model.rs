//! Mathematical models of optional values and of results.
//!
//! A data type of this library is modelled by its view. These functions carry
//! the view through `Option` and through the success of a `Result`, so that a
//! contract can state the whole outcome of an operation in one equation.

use vstd::prelude::*;

verus! {

/// Model of an optional value: the model of the value, where there is one.
pub open spec fn option_view<T: View>(value: Option<T>) -> Option<T::V> {
    match value {
        Some(v) => Some(v@),
        None => None,
    }
}

/// Model of an outcome: the model of the value on success, the error as it is
/// on failure.
pub open spec fn result_view<T: View, E>(outcome: Result<T, E>) -> Result<T::V, E> {
    match outcome {
        Ok(v) => Ok(v@),
        Err(e) => Err(e),
    }
}

} // verus!
