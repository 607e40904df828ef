//! The non-zero-enforcing integer wrapper and the capability behind it.
use vstd::prelude::*;

use crate::ffi::NotZeroable;
use crate::ffi::option::OptZero;

verus! {

/// A type that is valid when passed as a zero but has a distinguished zero
/// value, mainly for usage with [`ShouldNotBeZero`].
pub trait ZeroableThing: Sized {
    /// The type's distinguished zero value.
    spec fn spec_zero() -> Self;

    /// Whether this instance is the zero value.
    spec fn is_zero_spec(&self) -> bool;

    /// The zero value is unique: an instance is zero exactly when it equals
    /// [`Self::spec_zero`]. Every implementor owes this proof.
    proof fn lemma_zero_unique(&self)
        ensures
            self.is_zero_spec() <==> *self == Self::spec_zero(),
    ;

    /// Produces the zero value.
    fn zero() -> (r: Self)
        ensures
            r == Self::spec_zero(),
            r.is_zero_spec(),
    ;

    /// Reports whether this instance is the zero value.
    fn is_zero(&self) -> (r: bool)
        ensures
            r == self.is_zero_spec(),
    ;
}

impl ZeroableThing for u8 {
    open spec fn spec_zero() -> Self {
        0
    }

    open spec fn is_zero_spec(&self) -> bool {
        *self == 0
    }

    proof fn lemma_zero_unique(&self) {
    }

    fn zero() -> (r: Self) {
        0
    }

    fn is_zero(&self) -> (r: bool) {
        *self == 0
    }
}

impl ZeroableThing for u16 {
    open spec fn spec_zero() -> Self {
        0
    }

    open spec fn is_zero_spec(&self) -> bool {
        *self == 0
    }

    proof fn lemma_zero_unique(&self) {
    }

    fn zero() -> (r: Self) {
        0
    }

    fn is_zero(&self) -> (r: bool) {
        *self == 0
    }
}

impl ZeroableThing for u32 {
    open spec fn spec_zero() -> Self {
        0
    }

    open spec fn is_zero_spec(&self) -> bool {
        *self == 0
    }

    proof fn lemma_zero_unique(&self) {
    }

    fn zero() -> (r: Self) {
        0
    }

    fn is_zero(&self) -> (r: bool) {
        *self == 0
    }
}

impl ZeroableThing for u64 {
    open spec fn spec_zero() -> Self {
        0
    }

    open spec fn is_zero_spec(&self) -> bool {
        *self == 0
    }

    proof fn lemma_zero_unique(&self) {
    }

    fn zero() -> (r: Self) {
        0
    }

    fn is_zero(&self) -> (r: bool) {
        *self == 0
    }
}

impl ZeroableThing for u128 {
    open spec fn spec_zero() -> Self {
        0
    }

    open spec fn is_zero_spec(&self) -> bool {
        *self == 0
    }

    proof fn lemma_zero_unique(&self) {
    }

    fn zero() -> (r: Self) {
        0
    }

    fn is_zero(&self) -> (r: bool) {
        *self == 0
    }
}

impl ZeroableThing for usize {
    open spec fn spec_zero() -> Self {
        0
    }

    open spec fn is_zero_spec(&self) -> bool {
        *self == 0
    }

    proof fn lemma_zero_unique(&self) {
    }

    fn zero() -> (r: Self) {
        0
    }

    fn is_zero(&self) -> (r: bool) {
        *self == 0
    }
}

impl ZeroableThing for i8 {
    open spec fn spec_zero() -> Self {
        0
    }

    open spec fn is_zero_spec(&self) -> bool {
        *self == 0
    }

    proof fn lemma_zero_unique(&self) {
    }

    fn zero() -> (r: Self) {
        0
    }

    fn is_zero(&self) -> (r: bool) {
        *self == 0
    }
}

impl ZeroableThing for i16 {
    open spec fn spec_zero() -> Self {
        0
    }

    open spec fn is_zero_spec(&self) -> bool {
        *self == 0
    }

    proof fn lemma_zero_unique(&self) {
    }

    fn zero() -> (r: Self) {
        0
    }

    fn is_zero(&self) -> (r: bool) {
        *self == 0
    }
}

impl ZeroableThing for i32 {
    open spec fn spec_zero() -> Self {
        0
    }

    open spec fn is_zero_spec(&self) -> bool {
        *self == 0
    }

    proof fn lemma_zero_unique(&self) {
    }

    fn zero() -> (r: Self) {
        0
    }

    fn is_zero(&self) -> (r: bool) {
        *self == 0
    }
}

impl ZeroableThing for i64 {
    open spec fn spec_zero() -> Self {
        0
    }

    open spec fn is_zero_spec(&self) -> bool {
        *self == 0
    }

    proof fn lemma_zero_unique(&self) {
    }

    fn zero() -> (r: Self) {
        0
    }

    fn is_zero(&self) -> (r: bool) {
        *self == 0
    }
}

impl ZeroableThing for i128 {
    open spec fn spec_zero() -> Self {
        0
    }

    open spec fn is_zero_spec(&self) -> bool {
        *self == 0
    }

    proof fn lemma_zero_unique(&self) {
    }

    fn zero() -> (r: Self) {
        0
    }

    fn is_zero(&self) -> (r: bool) {
        *self == 0
    }
}

impl ZeroableThing for isize {
    open spec fn spec_zero() -> Self {
        0
    }

    open spec fn is_zero_spec(&self) -> bool {
        *self == 0
    }

    proof fn lemma_zero_unique(&self) {
    }

    fn zero() -> (r: Self) {
        0
    }

    fn is_zero(&self) -> (r: bool) {
        *self == 0
    }
}

/// Describes something that is valid when passed as a zero but SHOULD NOT BE
/// a zero: a plain integer whose zero pattern the surrounding protocol has
/// reserved to mean "absent".
///
/// Mainly for usage with [`OptZero`], so that a zero handed over by a foreign
/// call site is treated as an absent value rather than trusted.
#[derive(Debug, Clone, Copy, PartialEq, Eq, Hash)]
pub struct ShouldNotBeZero<T: ZeroableThing>(T);

impl<T: ZeroableThing> ShouldNotBeZero<T> {
    /// The wrapped integer.
    pub closed spec fn spec_value(self) -> T {
        self.0
    }

    /// Checked factory: absent on the zero value, wraps anything else.
    pub fn new(value: T) -> (r: Option<Self>)
        ensures
            value.is_zero_spec() <==> r is None,
            r matches Some(s) ==> s.spec_value() == value,
    {
        if value.is_zero() {
            None
        } else {
            Some(ShouldNotBeZero(value))
        }
    }

    /// Unchecked factory for call sites that have already excluded the zero
    /// value by construction; here the precondition makes that exclusion a
    /// verified obligation of the caller.
    pub fn new_unchecked(value: T) -> (r: Self)
        requires
            !value.is_zero_spec(),
        ensures
            r.spec_value() == value,
    {
        ShouldNotBeZero(value)
    }

    /// A reference to the wrapped integer.
    pub fn value_ref(&self) -> (r: &T)
        ensures
            *r == self.spec_value(),
    {
        &self.0
    }
}

impl<T: ZeroableThing + Copy> ShouldNotBeZero<T> {
    /// The wrapped integer, by value.
    pub fn value(&self) -> (r: T)
        ensures
            r == self.spec_value(),
    {
        self.0
    }
}

impl<T: ZeroableThing> NotZeroable for ShouldNotBeZero<T> {
    open spec fn is_zero_spec(&self) -> bool {
        self.spec_value().is_zero_spec()
    }

    fn is_zero(&self) -> (r: bool) {
        self.0.is_zero()
    }

    fn zeroed() -> (r: Self) {
        let t = T::zero();
        ShouldNotBeZero(t)
    }
}

/// An absent sentinel optional of a non-zero integer holds exactly the
/// integer's zero bit pattern: whenever the stored wrapper reads as zero, its
/// payload is the distinguished zero value of the underlying integer type.
pub proof fn lemma_absent_is_zero_pattern<T: ZeroableThing>(o: OptZero<ShouldNotBeZero<T>>)
    requires
        o.spec_inner().is_zero_spec(),
    ensures
        o.spec_inner().spec_value() == T::spec_zero(),
        o.spec_opt() == Option::<ShouldNotBeZero<T>>::None,
{
    o.spec_inner().spec_value().lemma_zero_unique();
}

} // verus!
