//! The borrowed-buffer descriptor and its validation contract.
//!
//! A [`Slice`] is a pointer-plus-length record describing a contiguous range
//! of foreign memory. Built from untrusted input it enforces nothing by
//! itself; a receiver must run one of the `try_as_slice` entry points, which
//! check the descriptor in a strict order (null, alignment, length, caller
//! validator) and only then hand back a [`ValidSlice`] witness that the
//! descriptor passed every check.
use vstd::prelude::*;

use core::marker::PhantomData;

use vstd::layout::align_of;
use vstd::layout::size_of;

use crate::errors::ErrorStatus;
use crate::errors::IntoErr;
use crate::ffi::NotZeroable;

verus! {

/// An error that can occur when validating a [`Slice`] descriptor.
#[derive(Debug, Clone, Copy, PartialEq, Eq, Structural)]
pub enum InvalidSliceError {
    /// The pointer is not aligned for the element type.
    PtrNotAligned,
    /// The pointer is null.
    PtrIsNull,
    /// The element count exceeds the signed range of the machine word.
    LenTooLarge,
    /// The caller-supplied validator rejected the address.
    Other,
}

impl IntoErr for InvalidSliceError {
    open spec fn err_spec(self) -> ErrorStatus {
        match self {
            InvalidSliceError::LenTooLarge => ErrorStatus::StrTooLong,
            _ => ErrorStatus::InvalidPtr,
        }
    }

    fn into_err(self) -> (r: ErrorStatus) {
        match self {
            InvalidSliceError::LenTooLarge => ErrorStatus::StrTooLong,
            _ => ErrorStatus::InvalidPtr,
        }
    }
}

/// A wire-compatible descriptor of a borrowed range of `T`: the address of
/// the first element followed by the element count, both machine-word width.
///
/// A value of this type received across the call gate is untrusted: nothing about
/// the address or the count may be relied on until a validation entry point
/// has accepted it.
#[derive(Debug)]
pub struct Slice<T> {
    ptr: usize,
    len: usize,
    elem: PhantomData<T>,
}

impl<T> Clone for Slice<T> {
    fn clone(&self) -> (r: Self)
        ensures
            r == *self,
    {
        Slice { ptr: self.ptr, len: self.len, elem: PhantomData }
    }
}

impl<T> Copy for Slice<T> {}

impl<T> PartialEq for Slice<T> {
    fn eq(&self, other: &Self) -> (r: bool) {
        self.ptr == other.ptr && self.len == other.len
    }
}

impl<T> Eq for Slice<T> {}

impl<T> vstd::std_specs::cmp::PartialEqSpecImpl for Slice<T> {
    open spec fn obeys_eq_spec() -> bool {
        true
    }

    open spec fn eq_spec(&self, other: &Self) -> bool {
        self.spec_ptr() == other.spec_ptr() && self.spec_len() == other.spec_len()
    }
}

/// Whether a descriptor passes the three layout checks for element type `T`:
/// non-null, aligned, and an element count within the signed range.
pub open spec fn spec_layout_ok<T>(ptr: usize, len: usize) -> bool {
    &&& ptr != 0
    &&& ptr as nat % align_of::<T>() == 0
    &&& len as int <= isize::MAX as int
}

/// What validating a descriptor yields, in the strict check order: null
/// pointer first, then alignment, then length, then the caller-supplied
/// validator's verdict. Only a descriptor that passes all four is accepted.
pub open spec fn spec_validate<T>(ptr: usize, len: usize, verdict: bool) -> Result<
    (),
    InvalidSliceError,
> {
    if ptr == 0 {
        Err(InvalidSliceError::PtrIsNull)
    } else if ptr as nat % align_of::<T>() != 0 {
        Err(InvalidSliceError::PtrNotAligned)
    } else if len as int > isize::MAX as int {
        Err(InvalidSliceError::LenTooLarge)
    } else if !verdict {
        Err(InvalidSliceError::Other)
    } else {
        Ok(())
    }
}

/// Whether a single descriptor fails validation with error `e`: for the
/// three layout errors this is the validator-independent outcome of
/// [`spec_validate`]; for [`InvalidSliceError::Other`] it is the outcome
/// under a rejecting validator.
pub open spec fn spec_elem_fails<T>(s: Slice<T>, e: InvalidSliceError) -> bool {
    if e == InvalidSliceError::Other {
        spec_validate::<T>(s.spec_ptr(), s.spec_len(), false) == Err::<(), InvalidSliceError>(e)
    } else {
        spec_validate::<T>(s.spec_ptr(), s.spec_len(), true) == Err::<(), InvalidSliceError>(e)
    }
}

/// The witness that a [`Slice`] descriptor passed validation: the same
/// address and element count, now known to satisfy the layout checks.
/// Whether the range is actually accessible is the caller validator's
/// business; this type records only what was checked.
#[derive(Debug)]
pub struct ValidSlice<T> {
    ptr: usize,
    len: usize,
    elem: PhantomData<T>,
}

impl<T> Clone for ValidSlice<T> {
    fn clone(&self) -> (r: Self)
        ensures
            r == *self,
    {
        ValidSlice { ptr: self.ptr, len: self.len, elem: PhantomData }
    }
}

impl<T> Copy for ValidSlice<T> {}

impl<T> PartialEq for ValidSlice<T> {
    fn eq(&self, other: &Self) -> (r: bool) {
        self.ptr == other.ptr && self.len == other.len
    }
}

impl<T> Eq for ValidSlice<T> {}

impl<T> vstd::std_specs::cmp::PartialEqSpecImpl for ValidSlice<T> {
    open spec fn obeys_eq_spec() -> bool {
        true
    }

    open spec fn eq_spec(&self, other: &Self) -> bool {
        self.spec_ptr() == other.spec_ptr() && self.spec_len() == other.spec_len()
    }
}

impl<T> ValidSlice<T> {
    /// The validated address.
    pub closed spec fn spec_ptr(self) -> usize {
        self.ptr
    }

    /// The validated element count.
    pub closed spec fn spec_len(self) -> usize {
        self.len
    }

    /// The layout checks this witness stands for.
    pub open spec fn wf(self) -> bool {
        spec_layout_ok::<T>(self.spec_ptr(), self.spec_len())
    }

    /// The validated address.
    pub fn as_ptr(&self) -> (r: usize)
        ensures
            r == self.spec_ptr(),
    {
        self.ptr
    }

    /// The validated element count.
    pub fn len(&self) -> (r: usize)
        ensures
            r == self.spec_len(),
    {
        self.len
    }
}

/// Relies on `<[T]>::as_ptr` for the address of a live slice: it is never
/// null, it is aligned for `T`, and together with the slice's length it
/// spans at most `isize::MAX` bytes.
#[verifier::external_body]
fn slice_parts<T>(s: &[T]) -> (r: (usize, usize))
    ensures
        r.0 != 0,
        r.0 as nat % align_of::<T>() == 0,
        r.1 == s@.len(),
        r.1 * size_of::<T>() <= isize::MAX as int,
{
    (s.as_ptr() as usize, s.len())
}

/// Relies on `<[T]>::as_mut_ptr` for the address of a live slice: it is
/// never null, it is aligned for `T`, and together with the slice's length
/// it spans at most `isize::MAX` bytes. The slice itself is not changed.
#[verifier::external_body]
fn slice_parts_mut<T>(s: &mut [T]) -> (r: (usize, usize))
    ensures
        final(s)@ == old(s)@,
        r.0 != 0,
        r.0 as nat % align_of::<T>() == 0,
        r.1 == old(s)@.len(),
        r.1 * size_of::<T>() <= isize::MAX as int,
{
    (s.as_mut_ptr() as usize, s.len())
}

impl<T> Slice<T> {
    /// Builds a descriptor from an address and an element count the caller
    /// already trusts: the address must be non-null and the count within the
    /// signed range, as a local sender would guarantee by construction.
    pub fn from_raw_parts(ptr: usize, len: usize) -> (r: Self)
        requires
            ptr != 0,
            len as int <= isize::MAX as int,
        ensures
            r.spec_ptr() == ptr,
            r.spec_len() == len,
    {
        Self { ptr, len, elem: PhantomData }
    }

    /// Builds a descriptor from bits as they arrived over the wire. Total:
    /// nothing is checked here, which is exactly why the validation entry
    /// points exist.
    pub fn from_untrusted(ptr: usize, len: usize) -> (r: Self)
        ensures
            r.spec_ptr() == ptr,
            r.spec_len() == len,
    {
        Self { ptr, len, elem: PhantomData }
    }

    /// Exports a borrowed mutable slice as a descriptor. Cost-free: stores
    /// the slice's own pointer and length.
    pub fn from_slice_mut(slice: &mut [T]) -> (r: Self)
        ensures
            final(slice)@ == old(slice)@,
            r.spec_ptr() != 0,
            r.spec_ptr() as nat % align_of::<T>() == 0,
            r.spec_len() == old(slice)@.len(),
            r.spec_len() * size_of::<T>() <= isize::MAX as int,
    {
        let (ptr, len) = slice_parts_mut(slice);
        Self { ptr, len, elem: PhantomData }
    }

    /// Exports a borrowed slice as a descriptor. Cost-free: stores the
    /// slice's own pointer and length.
    pub fn from_slice(slice: &[T]) -> (r: Self)
        ensures
            r.spec_ptr() != 0,
            r.spec_ptr() as nat % align_of::<T>() == 0,
            r.spec_len() == slice@.len(),
            r.spec_len() * size_of::<T>() <= isize::MAX as int,
    {
        let (ptr, len) = slice_parts(slice);
        Self { ptr, len, elem: PhantomData }
    }

    /// The element count claimed by this descriptor.
    pub fn len(&self) -> (r: usize)
        ensures
            r == self.spec_len(),
    {
        self.len
    }

    /// The address claimed by this descriptor.
    pub fn as_ptr(&self) -> (r: usize)
        ensures
            r == self.spec_ptr(),
    {
        self.ptr
    }

    /// The address claimed by this descriptor.
    pub closed spec fn spec_ptr(self) -> usize {
        self.ptr
    }

    /// The element count claimed by this descriptor.
    pub closed spec fn spec_len(self) -> usize {
        self.len
    }

    /// Validates this descriptor for a mutable view, running the address by
    /// a caller-supplied validator: the hook through which the surrounding
    /// system checks that the range is actually mapped in the sender's trust
    /// domain, a fact this layer cannot establish itself.
    ///
    /// Checks run in strict order and stop at the first failure: null
    /// pointer, alignment, element count, validator.
    pub fn try_as_slice_mut_custom<F: FnOnce(usize) -> bool>(&self, validator: F) -> (r: Result<
        ValidSlice<T>,
        InvalidSliceError,
    >)
        requires
            spec_layout_ok::<T>(self.spec_ptr(), self.spec_len()) ==> call_requires(
                validator,
                (self.spec_ptr(),),
            ),
        ensures
            match r {
                Ok(v) => {
                    &&& v.spec_ptr() == self.spec_ptr()
                    &&& v.spec_len() == self.spec_len()
                    &&& v.wf()
                    &&& spec_validate::<T>(self.spec_ptr(), self.spec_len(), true) == Ok::<
                        (),
                        InvalidSliceError,
                    >(())
                    &&& call_ensures(validator, (self.spec_ptr(),), true)
                },
                Err(InvalidSliceError::Other) => {
                    &&& spec_validate::<T>(self.spec_ptr(), self.spec_len(), false) == Err::<
                        (),
                        InvalidSliceError,
                    >(InvalidSliceError::Other)
                    &&& call_ensures(validator, (self.spec_ptr(),), false)
                },
                Err(e) => spec_validate::<T>(self.spec_ptr(), self.spec_len(), true) == Err::<
                    (),
                    InvalidSliceError,
                >(e),
            },
    {
        vstd::layout::layout_for_type_is_valid::<T>();
        if self.ptr == 0 {
            return Err(InvalidSliceError::PtrIsNull);
        }
        let align: usize = core::mem::align_of::<T>();
        if self.ptr % align != 0 {
            return Err(InvalidSliceError::PtrNotAligned);
        }
        if self.len > isize::MAX as usize {
            return Err(InvalidSliceError::LenTooLarge);
        }
        if !validator(self.ptr) {
            return Err(InvalidSliceError::Other);
        }
        Ok(ValidSlice { ptr: self.ptr, len: self.len, elem: PhantomData })
    }

    /// Validates this descriptor for a shared view, running the address by a
    /// caller-supplied validator. Identical checks, in the identical order,
    /// as [`Self::try_as_slice_mut_custom`].
    pub fn try_as_slice_custom<F: Fn(usize) -> bool>(&self, validator: F) -> (r: Result<
        ValidSlice<T>,
        InvalidSliceError,
    >)
        requires
            spec_layout_ok::<T>(self.spec_ptr(), self.spec_len()) ==> call_requires(
                validator,
                (self.spec_ptr(),),
            ),
        ensures
            match r {
                Ok(v) => {
                    &&& v.spec_ptr() == self.spec_ptr()
                    &&& v.spec_len() == self.spec_len()
                    &&& v.wf()
                    &&& spec_validate::<T>(self.spec_ptr(), self.spec_len(), true) == Ok::<
                        (),
                        InvalidSliceError,
                    >(())
                    &&& call_ensures(validator, (self.spec_ptr(),), true)
                },
                Err(InvalidSliceError::Other) => {
                    &&& spec_validate::<T>(self.spec_ptr(), self.spec_len(), false) == Err::<
                        (),
                        InvalidSliceError,
                    >(InvalidSliceError::Other)
                    &&& call_ensures(validator, (self.spec_ptr(),), false)
                },
                Err(e) => spec_validate::<T>(self.spec_ptr(), self.spec_len(), true) == Err::<
                    (),
                    InvalidSliceError,
                >(e),
            },
    {
        self.try_as_slice_mut_custom(validator)
    }

    /// Validates this descriptor for a mutable view with the always-true
    /// validator: the fast path for trusted intra-kernel use. The outcome is
    /// exactly what the layout checks alone decide.
    pub fn try_as_slice_mut(&self) -> (r: Result<ValidSlice<T>, InvalidSliceError>)
        ensures
            match r {
                Ok(v) => {
                    &&& v.spec_ptr() == self.spec_ptr()
                    &&& v.spec_len() == self.spec_len()
                    &&& v.wf()
                    &&& spec_validate::<T>(self.spec_ptr(), self.spec_len(), true) == Ok::<
                        (),
                        InvalidSliceError,
                    >(())
                },
                Err(e) => spec_validate::<T>(self.spec_ptr(), self.spec_len(), true) == Err::<
                    (),
                    InvalidSliceError,
                >(e),
            },
    {
        let accept_all = |_addr: usize| -> (b: bool)
            ensures
                b,
            { true };
        self.try_as_slice_mut_custom(accept_all)
    }

    /// Validates this descriptor for a shared view with the always-true
    /// validator. Same outcome as [`Self::try_as_slice_mut`].
    pub fn try_as_slice(&self) -> (r: Result<ValidSlice<T>, InvalidSliceError>)
        ensures
            match r {
                Ok(v) => {
                    &&& v.spec_ptr() == self.spec_ptr()
                    &&& v.spec_len() == self.spec_len()
                    &&& v.wf()
                    &&& spec_validate::<T>(self.spec_ptr(), self.spec_len(), true) == Ok::<
                        (),
                        InvalidSliceError,
                    >(())
                },
                Err(e) => spec_validate::<T>(self.spec_ptr(), self.spec_len(), true) == Err::<
                    (),
                    InvalidSliceError,
                >(e),
            },
    {
        self.try_as_slice_mut()
    }

    /// Validates a sequence of descriptors in order, as the inner step of
    /// nested-buffer validation: the outer buffer is validated first, its
    /// contents are copied out as owned descriptors, and this pass then
    /// checks every inner descriptor, stopping at the first failure. On
    /// success every descriptor has its witness, in sequence order.
    pub fn try_validate_all<F: Fn(usize) -> bool>(items: &Vec<Slice<T>>, validator: F) -> (r:
        Result<Vec<ValidSlice<T>>, InvalidSliceError>)
        requires
            forall|i: int|
                0 <= i < items@.len() && spec_layout_ok::<T>(
                    (#[trigger] items@[i]).spec_ptr(),
                    items@[i].spec_len(),
                ) ==> call_requires(validator, (items@[i].spec_ptr(),)),
        ensures
            match r {
                Ok(vs) => {
                    &&& vs@.len() == items@.len()
                    &&& forall|i: int|
                        0 <= i < items@.len() ==> {
                            &&& (#[trigger] vs@[i]).spec_ptr() == items@[i].spec_ptr()
                            &&& vs@[i].spec_len() == items@[i].spec_len()
                            &&& vs@[i].wf()
                            &&& spec_validate::<T>(
                                items@[i].spec_ptr(),
                                items@[i].spec_len(),
                                true,
                            ) is Ok
                            &&& call_ensures(validator, (items@[i].spec_ptr(),), true)
                        }
                },
                Err(e) => exists|i: int|
                    {
                        &&& 0 <= i < items@.len()
                        &&& #[trigger] spec_elem_fails::<T>(items@[i], e)
                        &&& (e == InvalidSliceError::Other ==> call_ensures(
                            validator,
                            (items@[i].spec_ptr(),),
                            false,
                        ))
                        &&& forall|j: int|
                            0 <= j < i ==> spec_validate::<T>(
                                (#[trigger] items@[j]).spec_ptr(),
                                items@[j].spec_len(),
                                true,
                            ) is Ok && call_ensures(validator, (items@[j].spec_ptr(),), true)
                    },
            },
    {
        let ghost pre = items@;
        let mut out: Vec<ValidSlice<T>> = Vec::new();
        let mut i: usize = 0;
        while i < items.len()
            invariant
                items@ == pre,
                0 <= i <= items@.len(),
                out@.len() == i,
                forall|k: int|
                    0 <= k < items@.len() && spec_layout_ok::<T>(
                        (#[trigger] items@[k]).spec_ptr(),
                        items@[k].spec_len(),
                    ) ==> call_requires(validator, (items@[k].spec_ptr(),)),
                forall|k: int|
                    #![trigger out@[k]]
                    #![trigger items@[k]]
                    0 <= k < i ==> {
                        &&& out@[k].spec_ptr() == items@[k].spec_ptr()
                        &&& out@[k].spec_len() == items@[k].spec_len()
                        &&& out@[k].wf()
                        &&& spec_validate::<T>(items@[k].spec_ptr(), items@[k].spec_len(), true) is Ok
                        &&& call_ensures(validator, (items@[k].spec_ptr(),), true)
                    },
            decreases items@.len() - i,
        {
            vstd::layout::layout_for_type_is_valid::<T>();
            let item = &items[i];
            if item.ptr == 0 {
                proof {
                    assert(spec_elem_fails::<T>(items@[i as int], InvalidSliceError::PtrIsNull));
                }
                return Err(InvalidSliceError::PtrIsNull);
            }
            let align: usize = core::mem::align_of::<T>();
            if item.ptr % align != 0 {
                proof {
                    assert(spec_elem_fails::<T>(
                        items@[i as int],
                        InvalidSliceError::PtrNotAligned,
                    ));
                }
                return Err(InvalidSliceError::PtrNotAligned);
            }
            if item.len > isize::MAX as usize {
                proof {
                    assert(spec_elem_fails::<T>(items@[i as int], InvalidSliceError::LenTooLarge));
                }
                return Err(InvalidSliceError::LenTooLarge);
            }
            if !validator(item.ptr) {
                proof {
                    assert(spec_elem_fails::<T>(items@[i as int], InvalidSliceError::Other));
                }
                return Err(InvalidSliceError::Other);
            }
            out.push(ValidSlice { ptr: item.ptr, len: item.len, elem: PhantomData });
            i = i + 1;
        }
        Ok(out)
    }
}

impl<T> NotZeroable for Slice<T> {
    open spec fn is_zero_spec(&self) -> bool {
        self.spec_ptr() == 0
    }

    fn is_zero(&self) -> (r: bool) {
        self.ptr == 0
    }

    fn zeroed() -> (r: Self) {
        Slice { ptr: 0, len: 0, elem: PhantomData }
    }
}

/// A null descriptor is rejected as [`InvalidSliceError::PtrIsNull`] before
/// anything else is looked at: regardless of the claimed length and of the
/// validator's verdict.
pub proof fn lemma_null_rejected_first<T>(len: usize, verdict: bool)
    ensures
        spec_validate::<T>(0, len, verdict) == Err::<(), InvalidSliceError>(
            InvalidSliceError::PtrIsNull,
        ),
{
}

/// A misaligned non-null descriptor is rejected as
/// [`InvalidSliceError::PtrNotAligned`] regardless of the claimed length
/// (even zero) and of the validator's verdict.
pub proof fn lemma_misaligned_rejected_second<T>(ptr: usize, len: usize, verdict: bool)
    requires
        ptr != 0,
        ptr as nat % align_of::<T>() != 0,
    ensures
        spec_validate::<T>(ptr, len, verdict) == Err::<(), InvalidSliceError>(
            InvalidSliceError::PtrNotAligned,
        ),
{
}

/// An element count beyond the signed range is rejected as
/// [`InvalidSliceError::LenTooLarge`] even when the pointer itself is valid,
/// and regardless of the validator's verdict.
pub proof fn lemma_oversized_rejected_third<T>(ptr: usize, len: usize, verdict: bool)
    requires
        ptr != 0,
        ptr as nat % align_of::<T>() == 0,
        len as int > isize::MAX as int,
    ensures
        spec_validate::<T>(ptr, len, verdict) == Err::<(), InvalidSliceError>(
            InvalidSliceError::LenTooLarge,
        ),
{
}

/// The validator is consulted last: its rejection surfaces as
/// [`InvalidSliceError::Other`] exactly when the three layout checks have
/// already passed.
pub proof fn lemma_validator_consulted_last<T>(ptr: usize, len: usize)
    requires
        spec_layout_ok::<T>(ptr, len),
    ensures
        spec_validate::<T>(ptr, len, false) == Err::<(), InvalidSliceError>(
            InvalidSliceError::Other,
        ),
        spec_validate::<T>(ptr, len, true) == Ok::<(), InvalidSliceError>(()),
{
}

/// Round trip: a descriptor exported from a live local slice (non-null,
/// aligned, at most `isize::MAX` bytes — exactly what [`Slice::from_slice`]
/// guarantees) validates back under the always-true validator, and the
/// accepted view carries the identical pointer and length.
pub proof fn lemma_local_export_roundtrip<T>(s: Slice<T>, v: ValidSlice<T>)
    requires
        s.spec_ptr() != 0,
        s.spec_ptr() as nat % align_of::<T>() == 0,
        s.spec_len() * size_of::<T>() <= isize::MAX as int,
        size_of::<T>() >= 1,
        v.spec_ptr() == s.spec_ptr(),
        v.spec_len() == s.spec_len(),
    ensures
        spec_validate::<T>(s.spec_ptr(), s.spec_len(), true) == Ok::<(), InvalidSliceError>(()),
        v.wf(),
{
    assert(s.spec_len() <= s.spec_len() * size_of::<T>()) by (nonlinear_arith)
        requires
            size_of::<T>() >= 1,
    ;
}

} // verus!
