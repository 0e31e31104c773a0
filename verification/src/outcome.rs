//! Short forms for contracts on results.

use vstd::prelude::*;

verus! {

/// Whether a result is `Ok` with the given value.
pub open spec fn gives<T, E>(r: Result<T, E>, value: T) -> bool {
    r == Ok::<T, E>(value)
}

/// Whether a result is `Err` with the given error.
pub open spec fn fails<T, E>(r: Result<T, E>, error: E) -> bool {
    r == Err::<T, E>(error)
}

} // verus!
