//! The addresses that a wire record carries, taken from the buffers that own the memory.
//!
//! An address is a plain number here. None of it is ever read through by this crate.

use vstd::prelude::*;

verus! {

/// The address that stands for "no memory" in a wire record.
pub const NULL_ADDRESS: usize = 0;

/// The address of a vector's buffer, taken for writing.
///
/// This is `Vec::as_mut_ptr`. It leaves the vector as it is and does not panic, and
/// the standard library documents that a vector's pointer is never null, also where
/// the vector holds nothing.
#[verifier::external_body]
pub(crate) fn vec_address_mut<T>(v: &mut Vec<T>) -> (addr: usize)
    ensures
        addr != NULL_ADDRESS,
        final(v)@ == old(v)@,
    no_unwind
{
    v.as_mut_ptr().addr()
}

/// The address of a vector's buffer, taken for reading.
///
/// This is `Vec::as_ptr`. The standard library documents that a vector's pointer is
/// never null, also where the vector holds nothing.
#[verifier::external_body]
pub(crate) fn vec_address<T>(v: &Vec<T>) -> (addr: usize)
    ensures
        addr != NULL_ADDRESS,
{
    v.as_ptr().addr()
}

/// The address of a slice's first byte, taken for reading.
///
/// This is `<[u8]>::as_ptr`. The pointer is that of the reference to the slice, and
/// a reference is never null, also to a slice that holds nothing.
#[verifier::external_body]
pub(crate) fn slice_address(bytes: &[u8]) -> (addr: usize)
    ensures
        addr != NULL_ADDRESS,
{
    bytes.as_ptr().addr()
}

/// The address of a slice's first byte, taken for writing.
///
/// This is `<[u8]>::as_mut_ptr`. It leaves the bytes as they are. The pointer is that
/// of the reference to the slice, and a reference is never null.
#[verifier::external_body]
pub(crate) fn slice_address_mut(bytes: &mut [u8]) -> (addr: usize)
    ensures
        addr != NULL_ADDRESS,
        final(bytes)@ == old(bytes)@,
{
    bytes.as_mut_ptr().addr()
}

/// The address of a unit value, taken for reading.
///
/// This is `std::ptr::from_ref`. The pointer is that of the reference, and a
/// reference is never null.
#[verifier::external_body]
pub(crate) fn unit_address(unit: &()) -> (addr: usize)
    ensures
        addr != NULL_ADDRESS,
{
    std::ptr::from_ref(unit).addr()
}

/// The address of a unit value, taken for writing.
///
/// This is `std::ptr::from_mut`. The pointer is that of the reference, and a
/// reference is never null.
#[verifier::external_body]
pub(crate) fn unit_address_mut(unit: &mut ()) -> (addr: usize)
    ensures
        addr != NULL_ADDRESS,
{
    std::ptr::from_mut(unit).addr()
}

} // verus!
