//! The non-null foreign pointer claim.
use vstd::prelude::*;

use core::marker::PhantomData;

use crate::ffi::NotZeroable;

verus! {

/// The address of a foreign pointer that is guaranteed only to be non-null.
///
/// Unlike a first-class pointer type it carries NO guarantee that the pointee
/// is valid, aligned for use, or live: it is a claim, not a proof, and
/// additional checks must be performed before the address is dereferenced.
/// The purpose is for use alongside [`crate::ffi::option::OptZero`], with the
/// null address as the sentinel.
#[derive(Debug, PartialEq, Eq, Hash)]
pub struct FFINonNull<T>(usize, PhantomData<T>);

impl<T> Clone for FFINonNull<T> {
    fn clone(&self) -> (r: Self)
        ensures
            r == *self,
    {
        FFINonNull(self.0, PhantomData)
    }
}

impl<T> Copy for FFINonNull<T> {}

impl<T> FFINonNull<T> {
    /// The address carried by this claim.
    pub closed spec fn spec_addr(self) -> usize {
        self.0
    }

    /// Creates a new [`FFINonNull`] if the address is not null, otherwise
    /// returns `None`.
    pub fn new(ptr: usize) -> (r: Option<Self>)
        ensures
            ptr == 0 <==> r is None,
            r matches Some(p) ==> p.spec_addr() == ptr,
    {
        if ptr == 0 {
            None
        } else {
            Some(Self(ptr, PhantomData))
        }
    }

    /// Creates a new [`FFINonNull`] from an address the caller has already
    /// established to be non-null.
    pub fn new_unchecked(ptr: usize) -> (r: Self)
        requires
            ptr != 0,
        ensures
            r.spec_addr() == ptr,
    {
        Self(ptr, PhantomData)
    }

    /// Returns the address stored in this [`FFINonNull`] instance.
    pub fn as_ptr(&self) -> (r: usize)
        ensures
            r == self.spec_addr(),
    {
        self.0
    }
}

impl<T> NotZeroable for FFINonNull<T> {
    open spec fn is_zero_spec(&self) -> bool {
        self.spec_addr() == 0
    }

    fn is_zero(&self) -> (r: bool) {
        self.0 == 0
    }

    fn zeroed() -> (r: Self) {
        Self(0, PhantomData)
    }
}

} // verus!
