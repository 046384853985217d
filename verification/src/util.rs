//! Sizes and offsets in bytes, as a graphics API takes them.
use vstd::prelude::*;
use vstd::layout::{layout_of_slices, size_of as byte_size};

verus! {

/// The size of `val` in bytes: its length times the size of one element.
///
/// The size is handed over as an `isize`; a number of bytes that `isize`
/// cannot hold keeps its low bits.
pub fn byte_size_of_array<T>(val: &[T]) -> (bytes: isize)
    ensures
        bytes == (val@.len() * byte_size::<T>()) as isize,
        val@.len() * byte_size::<T>() <= isize::MAX ==> bytes == val@.len() * byte_size::<T>(),
{
    broadcast use layout_of_slices;

    let bytes = core::mem::size_of_val(val);
    #[verifier::truncate]
    (bytes as isize)
}

/// The size of a `T` in bytes.
///
/// The size is handed over as an `i32`; a size that `i32` cannot hold keeps
/// its low bits.
pub fn size_of<T>() -> (bytes: i32)
    ensures
        bytes == byte_size::<T>() as i32,
        byte_size::<T>() <= i32::MAX ==> bytes == byte_size::<T>(),
{
    let bytes = core::mem::size_of::<T>();
    #[verifier::truncate]
    (bytes as i32)
}

/// The offset in bytes of the element `n` of a buffer of `T`.
pub fn offset<T>(n: u32) -> (bytes: u32)
    requires
        n * byte_size::<T>() <= u32::MAX,
    ensures
        bytes == n * byte_size::<T>(),
{
    let size = core::mem::size_of::<T>();
    if n == 0 {
        0
    } else {
        assert(byte_size::<T>() <= n * byte_size::<T>()) by (nonlinear_arith)
            requires
                n >= 1,
        ;
        n * (size as u32)
    }
}

} // verus!
