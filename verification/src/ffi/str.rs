//! The borrowed-text descriptor: a byte buffer whose contents must
//! additionally be well-formed UTF-8.
use vstd::prelude::*;

use vstd::layout::align_of;
use vstd::layout::size_of;
use vstd::string::StringSliceAdditionalSpecFns;
use vstd::utf8::valid_utf8;

use crate::errors::ErrorStatus;
use crate::errors::IntoErr;
use crate::ffi::NotZeroable;
use crate::ffi::slice::InvalidSliceError;
use crate::ffi::slice::Slice;
use crate::ffi::slice::ValidSlice;
use crate::ffi::slice::spec_layout_ok;
use crate::ffi::slice::spec_validate;

verus! {

/// A wire-safe alternative to a borrowed string slice.
///
/// Has the same requirements as a string slice — a live, aligned range of
/// bytes that are well-formed UTF-8 — but a value passed from a foreign call
/// site may meet none of them, so the requirements are only established by
/// the validation entry points.
#[derive(Debug, Clone, Copy)]
pub struct Str(Slice<u8>);

/// An error that occurs when validating a [`Str`].
#[derive(Debug, Clone, Copy, PartialEq, Eq, Structural)]
pub enum InvalidStrError {
    /// The underlying byte buffer failed descriptor validation.
    InvalidSliceError(InvalidSliceError),
    /// The bytes are not well-formed UTF-8.
    Utf8Error,
}

impl core::convert::From<InvalidSliceError> for InvalidStrError {
    fn from(value: InvalidSliceError) -> Self {
        InvalidStrError::InvalidSliceError(value)
    }
}

impl vstd::std_specs::convert::FromSpecImpl<InvalidSliceError> for InvalidStrError {
    open spec fn obeys_from_spec() -> bool {
        true
    }

    open spec fn from_spec(e: InvalidSliceError) -> Self {
        InvalidStrError::InvalidSliceError(e)
    }
}

impl IntoErr for InvalidStrError {
    open spec fn err_spec(self) -> ErrorStatus {
        match self {
            InvalidStrError::InvalidSliceError(e) => e.err_spec(),
            InvalidStrError::Utf8Error => ErrorStatus::InvalidStr,
        }
    }

    fn into_err(self) -> (r: ErrorStatus) {
        match self {
            InvalidStrError::InvalidSliceError(e) => e.into_err(),
            InvalidStrError::Utf8Error => ErrorStatus::InvalidStr,
        }
    }
}

/// Relies on `core::str::from_utf8`: it accepts exactly the byte sequences
/// that are well-formed UTF-8, and the accepted string is backed by those
/// same bytes.
#[verifier::external_body]
fn bytes_as_str(v: &[u8]) -> (r: Option<&str>)
    ensures
        r is Some <==> valid_utf8(v@),
        r matches Some(s) ==> s.spec_bytes() == v@,
{
    core::str::from_utf8(v).ok()
}

impl Str {
    /// The underlying byte-buffer descriptor.
    pub closed spec fn spec_slice(self) -> Slice<u8> {
        self.0
    }

    /// Creates a new [`Str`] from a string slice. Cost-free: the descriptor
    /// records the string's own pointer and byte length.
    pub fn from_str(s: &str) -> (r: Self)
        ensures
            r.spec_slice().spec_ptr() != 0,
            r.spec_slice().spec_ptr() as nat % align_of::<u8>() == 0,
            r.spec_slice().spec_len() == s.spec_bytes().len(),
            r.spec_slice().spec_len() * size_of::<u8>() <= isize::MAX as int,
    {
        Self(Slice::from_slice(s.as_bytes()))
    }

    /// The underlying byte-buffer descriptor, by reference.
    pub fn as_bytes(&self) -> (r: &Slice<u8>)
        ensures
            *r == self.spec_slice(),
    {
        &self.0
    }

    /// The address claimed by this descriptor.
    pub fn as_ptr(&self) -> (r: usize)
        ensures
            r == self.spec_slice().spec_ptr(),
    {
        self.0.as_ptr()
    }

    /// The byte length claimed by this descriptor.
    pub fn len(&self) -> (r: usize)
        ensures
            r == self.spec_slice().spec_len(),
    {
        self.0.len()
    }

    /// Validates the byte-buffer descriptor alone — null, alignment, length,
    /// then the caller-supplied validator, exactly as for an untyped buffer —
    /// and hands back the witness a receiver needs before it may read the
    /// bytes at all. The UTF-8 requirement is checked separately, by
    /// [`Self::try_as_str_custom`], once the bytes can be read.
    pub fn try_validate_custom<F: FnOnce(usize) -> bool>(&self, validator: F) -> (r: Result<
        ValidSlice<u8>,
        InvalidStrError,
    >)
        requires
            spec_layout_ok::<u8>(
                self.spec_slice().spec_ptr(),
                self.spec_slice().spec_len(),
            ) ==> call_requires(validator, (self.spec_slice().spec_ptr(),)),
        ensures
            match r {
                Ok(v) => {
                    &&& v.spec_ptr() == self.spec_slice().spec_ptr()
                    &&& v.spec_len() == self.spec_slice().spec_len()
                    &&& v.wf()
                    &&& spec_validate::<u8>(
                        self.spec_slice().spec_ptr(),
                        self.spec_slice().spec_len(),
                        true,
                    ) == Ok::<(), InvalidSliceError>(())
                    &&& call_ensures(validator, (self.spec_slice().spec_ptr(),), true)
                },
                Err(InvalidStrError::InvalidSliceError(InvalidSliceError::Other)) => {
                    &&& spec_validate::<u8>(
                        self.spec_slice().spec_ptr(),
                        self.spec_slice().spec_len(),
                        false,
                    ) == Err::<(), InvalidSliceError>(InvalidSliceError::Other)
                    &&& call_ensures(validator, (self.spec_slice().spec_ptr(),), false)
                },
                Err(InvalidStrError::InvalidSliceError(e)) => spec_validate::<u8>(
                    self.spec_slice().spec_ptr(),
                    self.spec_slice().spec_len(),
                    true,
                ) == Err::<(), InvalidSliceError>(e),
                Err(InvalidStrError::Utf8Error) => false,
            },
    {
        match self.0.try_as_slice_mut_custom(validator) {
            Ok(v) => Ok(v),
            Err(e) => Err(InvalidStrError::InvalidSliceError(e)),
        }
    }

    /// Validates the byte-buffer descriptor alone with the always-true
    /// validator: the fast path for trusted intra-kernel use.
    pub fn try_validate(&self) -> (r: Result<ValidSlice<u8>, InvalidStrError>)
        ensures
            match r {
                Ok(v) => {
                    &&& v.spec_ptr() == self.spec_slice().spec_ptr()
                    &&& v.spec_len() == self.spec_slice().spec_len()
                    &&& v.wf()
                    &&& spec_validate::<u8>(
                        self.spec_slice().spec_ptr(),
                        self.spec_slice().spec_len(),
                        true,
                    ) == Ok::<(), InvalidSliceError>(())
                },
                Err(InvalidStrError::InvalidSliceError(e)) => spec_validate::<u8>(
                    self.spec_slice().spec_ptr(),
                    self.spec_slice().spec_len(),
                    true,
                ) == Err::<(), InvalidSliceError>(e),
                Err(InvalidStrError::Utf8Error) => false,
            },
    {
        match self.0.try_as_slice_mut() {
            Ok(v) => Ok(v),
            Err(e) => Err(InvalidStrError::InvalidSliceError(e)),
        }
    }

    /// Attempts to read this descriptor as a string slice: the descriptor is
    /// validated in the strict order (null, alignment, length, caller
    /// validator), and only then are the bytes — read from the buffer by the
    /// caller once [`Self::try_validate_custom`] allowed it — required to be
    /// well-formed UTF-8. The accepted string is backed by exactly those
    /// bytes.
    pub fn try_as_str_custom<'a, F: FnOnce(usize) -> bool>(
        &self,
        bytes: &'a [u8],
        validator: F,
    ) -> (r: Result<&'a str, InvalidStrError>)
        requires
            spec_layout_ok::<u8>(
                self.spec_slice().spec_ptr(),
                self.spec_slice().spec_len(),
            ) ==> call_requires(validator, (self.spec_slice().spec_ptr(),)),
        ensures
            match r {
                Ok(s) => {
                    &&& s.spec_bytes() == bytes@
                    &&& valid_utf8(bytes@)
                    &&& spec_validate::<u8>(
                        self.spec_slice().spec_ptr(),
                        self.spec_slice().spec_len(),
                        true,
                    ) == Ok::<(), InvalidSliceError>(())
                    &&& call_ensures(validator, (self.spec_slice().spec_ptr(),), true)
                },
                Err(InvalidStrError::Utf8Error) => {
                    &&& !valid_utf8(bytes@)
                    &&& spec_validate::<u8>(
                        self.spec_slice().spec_ptr(),
                        self.spec_slice().spec_len(),
                        true,
                    ) == Ok::<(), InvalidSliceError>(())
                    &&& call_ensures(validator, (self.spec_slice().spec_ptr(),), true)
                },
                Err(InvalidStrError::InvalidSliceError(InvalidSliceError::Other)) => {
                    &&& spec_validate::<u8>(
                        self.spec_slice().spec_ptr(),
                        self.spec_slice().spec_len(),
                        false,
                    ) == Err::<(), InvalidSliceError>(InvalidSliceError::Other)
                    &&& call_ensures(validator, (self.spec_slice().spec_ptr(),), false)
                },
                Err(InvalidStrError::InvalidSliceError(e)) => spec_validate::<u8>(
                    self.spec_slice().spec_ptr(),
                    self.spec_slice().spec_len(),
                    true,
                ) == Err::<(), InvalidSliceError>(e),
            },
    {
        match self.try_validate_custom(validator) {
            Ok(_witness) => match bytes_as_str(bytes) {
                Some(s) => Ok(s),
                None => Err(InvalidStrError::Utf8Error),
            },
            Err(e) => Err(e),
        }
    }

    /// Attempts to read this descriptor as a string slice with the
    /// always-true validator. The outcome is exactly what the layout checks
    /// and the UTF-8 requirement decide.
    pub fn try_as_str<'a>(&self, bytes: &'a [u8]) -> (r: Result<&'a str, InvalidStrError>)
        ensures
            match r {
                Ok(s) => {
                    &&& s.spec_bytes() == bytes@
                    &&& valid_utf8(bytes@)
                    &&& spec_validate::<u8>(
                        self.spec_slice().spec_ptr(),
                        self.spec_slice().spec_len(),
                        true,
                    ) == Ok::<(), InvalidSliceError>(())
                },
                Err(InvalidStrError::Utf8Error) => {
                    &&& !valid_utf8(bytes@)
                    &&& spec_validate::<u8>(
                        self.spec_slice().spec_ptr(),
                        self.spec_slice().spec_len(),
                        true,
                    ) == Ok::<(), InvalidSliceError>(())
                },
                Err(InvalidStrError::InvalidSliceError(e)) => spec_validate::<u8>(
                    self.spec_slice().spec_ptr(),
                    self.spec_slice().spec_len(),
                    true,
                ) == Err::<(), InvalidSliceError>(e),
            },
    {
        let accept_all = |_addr: usize| -> (b: bool)
            ensures
                b,
            { true };
        self.try_as_str_custom(bytes, accept_all)
    }
}

impl NotZeroable for Str {
    open spec fn is_zero_spec(&self) -> bool {
        self.spec_slice().is_zero_spec()
    }

    fn is_zero(&self) -> (r: bool) {
        self.0.is_zero()
    }

    fn zeroed() -> (r: Self) {
        Str(Slice::zeroed())
    }
}

} // verus!
