//! Explicit "use a default on failure" accessors for property reads whose
//! failure is not fatal.

use vstd::prelude::*;

verus! {

/// Returns the value held by `result`, or the value produced by `default`
/// when `result` is an error.
pub fn warn_or_else<T, E, F: FnOnce() -> T>(result: Result<T, E>, default: F) -> (r: T)
    requires
        result is Err ==> default.requires(()),
    ensures
        match result {
            Ok(v) => r == v,
            Err(_) => default.ensures((), r),
        },
{
    match result {
        Ok(v) => v,
        Err(_) => default(),
    }
}

/// Returns the value held by `result`, or `default` when `result` is an error.
pub fn warn_or<T, E>(result: Result<T, E>, default: T) -> (r: T)
    ensures
        r == match result {
            Ok(v) => v,
            Err(_) => default,
        },
{
    warn_or_else(result, move || -> (d: T)
        ensures
            d == default,
        { default })
}

/// Returns the value held by `result`, or `T`'s default value when `result`
/// is an error.
pub fn warn<T: Default, E>(result: Result<T, E>) -> (r: T)
    ensures
        result is Ok ==> r == result->Ok_0,
        result is Err ==> call_ensures(T::default, (), r),
{
    warn_or_else(result, T::default)
}

} // verus!
