//! How the result of a function is held against its specification.

use vstd::prelude::*;

verus! {

/// Whether a result agrees with what its specification gives: the same error,
/// or a value whose model is the specified one.
pub open spec fn agrees<T: DeepView, E>(got: Result<T, E>, want: Result<T::V, E>) -> bool {
    match got {
        Ok(value) => want == Ok::<T::V, E>(value.deep_view()),
        Err(error) => want == Err::<T::V, E>(error),
    }
}

} // verus!
