//! The optional encodings: tagged ([`COption`]) and zero-sentinel
//! ([`OptZero`]).
use vstd::prelude::*;

use vstd::std_specs::cmp::PartialEqSpec;

use crate::ffi::NotZeroable;

verus! {

/// A wire-safe tagged optional: an explicit discriminant beside the payload.
///
/// Used wherever the payload's zero value is a legitimate present value, so
/// the sentinel encoding of [`OptZero`] would be unsafe to use.
#[derive(Debug, Clone, Copy, PartialEq, Eq, Hash)]
pub enum COption<T> {
    /// The absent state; discriminant 0 on the wire.
    Absent,
    /// The present state carrying a payload; discriminant 1 on the wire.
    Present(T),
}

/// What an ordinary optional looks like as a [`COption`].
pub open spec fn coption_of<T>(value: Option<T>) -> COption<T> {
    match value {
        Option::None => COption::Absent,
        Option::Some(x) => COption::Present(x),
    }
}

/// What a [`COption`] looks like as an ordinary optional.
pub open spec fn option_of<T>(value: COption<T>) -> Option<T> {
    match value {
        COption::Absent => Option::None,
        COption::Present(x) => Option::Some(x),
    }
}

impl<T> COption<T> {
    /// Converts an ordinary optional into a [`COption`]. Total.
    pub fn from_option(value: Option<T>) -> (r: Self)
        ensures
            r == coption_of(value),
    {
        match value {
            None => Self::Absent,
            Some(x) => Self::Present(x),
        }
    }

    /// Converts this [`COption`] into an ordinary optional. Total.
    pub fn into_option(self) -> (r: Option<T>)
        ensures
            r == option_of(self),
    {
        match self {
            COption::Absent => None,
            COption::Present(x) => Some(x),
        }
    }
}

impl<T> Default for COption<T> {
    /// The default is the absent state.
    fn default() -> (r: Self)
        ensures
            r == COption::<T>::Absent,
    {
        COption::Absent
    }
}

/// The zero-sentinel optional encoding: an optional in the same bit width as
/// its payload, with the payload's zero pattern reused to mean "absent".
///
/// Wraps a type that SHOULD be non-zero; "should", because a foreign call
/// site may hand the value over zeroed, and this type makes that safe by
/// reading any zero pattern as absent. The encoding is lossy at the boundary:
/// a zero payload stored as "present" is indistinguishable from absent (see
/// [`lemma_zero_payload_collapses`]), so it must only be used for payload
/// types whose legitimate value space excludes zero.
#[derive(Debug, Clone, Copy)]
pub struct OptZero<T: NotZeroable>(T);

impl<T: NotZeroable> OptZero<T> {
    /// The stored bits, present or not.
    pub closed spec fn spec_inner(self) -> T {
        self.0
    }

    /// The value this encoding stands for: absent whenever the stored bits
    /// equal the zero pattern, else the stored payload.
    pub open spec fn spec_opt(self) -> Option<T> {
        if self.spec_inner().is_zero_spec() {
            Option::None
        } else {
            Option::Some(self.spec_inner())
        }
    }

    /// The encoding that stores exactly `v`.
    pub closed spec fn spec_some(v: T) -> OptZero<T> {
        OptZero(v)
    }

    /// Creates an `OptZero` that stores `x`. Reads back as present unless `x`
    /// is the zero pattern, in which case it collapses to absent.
    pub fn some(x: T) -> (r: Self)
        ensures
            r == Self::spec_some(x),
            r.spec_inner() == x,
    {
        Self(x)
    }

    /// Creates an `OptZero` that represents an absent value: the stored bits
    /// are the payload type's zero pattern.
    pub fn none() -> (r: Self)
        ensures
            r.spec_inner().is_zero_spec(),
            r.spec_opt() == Option::<T>::None,
    {
        Self(T::zeroed())
    }

    /// Creates an `OptZero` from an ordinary optional.
    pub fn from_option(opt: Option<T>) -> (r: Self)
        ensures
            match opt {
                Option::Some(x) => r == Self::spec_some(x),
                Option::None => r.spec_inner().is_zero_spec(),
            },
            opt matches Option::Some(x) && !x.is_zero_spec() ==> r.spec_opt() == opt,
            opt is None ==> r.spec_opt() == Option::<T>::None,
    {
        match opt {
            None => Self::none(),
            Some(x) => Self::some(x),
        }
    }

    /// Converts this `OptZero` into an ordinary optional. Total: a zero
    /// payload silently becomes absent.
    pub fn into_option(self) -> (r: Option<T>)
        ensures
            r == self.spec_opt(),
    {
        if self.0.is_zero() {
            None
        } else {
            Some(self.0)
        }
    }

    /// A reference view of the contained value, or absent if the stored bits
    /// are the zero pattern. Same total behaviour as [`Self::into_option`].
    pub fn as_option(&self) -> (r: Option<&T>)
        ensures
            r is Some <==> self.spec_opt() is Some,
            r matches Some(t) ==> *t == self.spec_inner(),
    {
        if self.0.is_zero() {
            None
        } else {
            Some(&self.0)
        }
    }

    /// Returns the stored bits whether or not they are the zero pattern.
    /// Callers give up the promise that a zero pattern is handled as absent.
    pub fn into_inner_unchecked(self) -> (r: T)
        ensures
            r == self.spec_inner(),
    {
        self.0
    }

    /// Maps a present value through `f`, producing an `OptZero` of the mapped
    /// type; an absent value stays absent. If `f` returns the zero pattern of
    /// `U`, the result collapses to absent.
    pub fn map<F, U>(self, f: F) -> (r: OptZero<U>) where
        F: FnOnce(T) -> U,
        U: NotZeroable,

        requires
            !self.spec_inner().is_zero_spec() ==> call_requires(f, (self.spec_inner(),)),
        ensures
            self.spec_inner().is_zero_spec() ==> r.spec_opt() == Option::<U>::None,
            !self.spec_inner().is_zero_spec() ==> call_ensures(
                f,
                (self.spec_inner(),),
                r.spec_inner(),
            ),
    {
        if self.0.is_zero() {
            OptZero::none()
        } else {
            OptZero::some(f(self.0))
        }
    }
}

impl<T: NotZeroable + PartialEq> PartialEq for OptZero<T> {
    /// Two encodings are equal when both are absent — regardless of which
    /// zero-pattern bits each holds — or both store equal payloads.
    fn eq(&self, other: &Self) -> (r: bool) {
        (self.0.is_zero() && other.0.is_zero()) || self.0.eq(&other.0)
    }
}

impl<T: NotZeroable + Eq> Eq for OptZero<T> {}

impl<T: NotZeroable + PartialEq> vstd::std_specs::cmp::PartialEqSpecImpl for OptZero<T> {
    open spec fn obeys_eq_spec() -> bool {
        T::obeys_eq_spec()
    }

    open spec fn eq_spec(&self, other: &Self) -> bool {
        (self.spec_inner().is_zero_spec() && other.spec_inner().is_zero_spec())
            || self.spec_inner().eq_spec(&other.spec_inner())
    }
}

/// Round trip for present values: an encoding built from a non-zero payload
/// reads back as present with that same payload.
pub proof fn lemma_present_roundtrip<T: NotZeroable>(v: T)
    requires
        !v.is_zero_spec(),
    ensures
        OptZero::spec_some(v).spec_opt() == Option::Some(v),
{
}

/// Absent stays absent: any encoding whose stored bits are the zero pattern
/// reads back as absent, regardless of how it was produced.
pub proof fn lemma_absent_reads_none<T: NotZeroable>(o: OptZero<T>)
    requires
        o.spec_inner().is_zero_spec(),
    ensures
        o.spec_opt() == Option::<T>::None,
{
}

/// The documented lossy collision of the sentinel encoding: storing the zero
/// pattern as a "present" value reads back as absent. This is asserted, not
/// silently repaired; callers must keep zero out of the present value space.
pub proof fn lemma_zero_payload_collapses<T: NotZeroable>(v: T)
    requires
        v.is_zero_spec(),
    ensures
        OptZero::spec_some(v).spec_opt() == Option::<T>::None,
{
}

} // verus!
