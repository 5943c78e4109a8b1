//! Multiplication of two machine integers.

use vstd::prelude::*;

verus! {

/// Multiplies `a` by `b`.
///
/// The mathematical product has to fit in an `i32`; the result is then that
/// product, exactly.
pub fn operation(a: i32, b: i32) -> (product: i32)
    requires
        i32::MIN <= a * b <= i32::MAX,
    ensures
        product == a * b,
{
    a * b
}

} // verus!
