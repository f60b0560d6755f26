//! Conversions that the caller knows to succeed.

use vstd::pervasive::unreached;
use vstd::prelude::*;

verus! {

/// `<[T; N] as TryFrom<&[T]>>::try_from` of the standard library, which copies a slice into an
/// array: it succeeds exactly where the slice has `N` elements, and the array then holds the
/// elements of the slice in their order.
#[verifier::external_body]
fn array_from_slice<T: Copy, const N: usize>(value: &[T]) -> (array: Option<[T; N]>)
    ensures
        array is Some <==> value@.len() == N,
        array is Some ==> array->Some_0@ == value@,
{
    <[T; N]>::try_from(value).ok()
}

/// Performs the conversion of a slice into an array for a slice of which the caller knows that
/// it has the length of the array.
pub fn into_array_unchecked<T: Copy, const N: usize>(value: &[T]) -> (array: [T; N])
    requires
        value@.len() == N,
    ensures
        array@ == value@,
{
    match array_from_slice(value) {
        Some(array) => array,
        None => unreached(),
    }
}

} // verus!
