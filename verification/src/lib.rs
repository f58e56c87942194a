//! Two small functions over Rust's primitive types: one that returns the unit
//! value, and the sum of two `i32` values.
//!
//! Both are plain functions, so either can be bound to a function pointer
//! (`fn()` and `fn(i32, i32) -> i32`) and called through it.

use vstd::prelude::*;

verus! {

/// Does nothing and returns the unit value `()`.
///
/// The unit type has exactly one value, so the return type alone fixes the
/// result; there are no arguments to read and nothing that could be changed.
pub fn do_nothing() {
}

/// Returns the sum of `a` and `b`.
///
/// The mathematical sum has to fit in an `i32`; for such arguments the result
/// is exactly that sum, with no wrapping and no saturation.
pub fn add(a: i32, b: i32) -> (sum: i32)
    requires
        i32::MIN <= a + b <= i32::MAX,
    ensures
        sum == a + b,
{
    a + b
}

} // verus!
