//! Wire-safe building blocks for values that cross the call gate.
//!
//! Exports, among others, [`slice::Slice`], a wire-safe alternative to a
//! borrowed slice, and [`option::OptZero`], the zero-sentinel optional
//! encoding.
use vstd::prelude::*;

pub mod num;
pub mod option;
pub mod ptr;
pub mod slice;
pub mod str;

verus! {

/// The capability every zero-sentinel encoding is built on: a type whose zero
/// bit pattern is invalid as a "present" value, and which can report in
/// constant time whether an instance currently equals that pattern.
///
/// The zero pattern must never be a value the type's legitimate domain needs
/// to represent as present; violating this is a caller error that the
/// encoding cannot detect (see [`option::OptZero`]).
pub trait NotZeroable: Sized {
    /// Whether this instance equals the type's zero pattern.
    spec fn is_zero_spec(&self) -> bool;

    /// Reports whether this instance equals the type's zero pattern.
    fn is_zero(&self) -> (r: bool)
        ensures
            r == self.is_zero_spec(),
    ;

    /// Produces an instance holding the type's zero pattern. The sentinel
    /// optional encoding uses this as its "absent" representation.
    fn zeroed() -> (r: Self)
        ensures
            r.is_zero_spec(),
    ;
}

} // verus!
