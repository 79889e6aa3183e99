//! The mathematical values of results and of values that may be missing.

use vstd::prelude::*;

use crate::error::ContractError;

verus! {

/// A result with its value replaced by the value's view.
pub open spec fn viewed<T: View>(result: Result<T, ContractError>) -> Result<T::V, ContractError> {
    match result {
        Ok(value) => Ok(value@),
        Err(reason) => Err(reason),
    }
}

/// The view of a value that may be missing.
pub open spec fn option_view<T: View>(value: Option<T>) -> Option<T::V> {
    match value {
        Some(v) => Some(v@),
        None => None,
    }
}

} // verus!
