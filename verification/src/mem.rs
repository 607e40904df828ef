//! Memory-mapping and shared-memory records carried across the call gate.
use vstd::prelude::*;

verus! {

/// Describes a memory-mapping request: the address hint, the size of the
/// area to map, and the resource it is associated with.
#[derive(Debug, Clone, Copy, PartialEq, Eq, Structural)]
pub struct RawMemMapConfig {
    /// Address hint; can be null (zero) to indicate no hint.
    pub addr_hint: usize,
    /// The amount of pages to map.
    pub page_count: usize,
    /// The amount of unmapped guard pages before and after the area.
    pub guard_pages_count: usize,
    /// The ID of the associated resource to map; ignored unless
    /// [`MemMapFlags::MAP_RESOURCE`] was given.
    pub resource_to_map: usize,
    /// If mapping a resource, the offset into it where the mapping starts.
    pub resource_off: isize,
}

/// Flags for a memory-mapping request, as a bit set.
#[derive(Debug, Clone, Copy, PartialEq, Eq, Structural)]
pub struct MemMapFlags(u8);

impl MemMapFlags {
    /// The given address is just a hint unless specified with this flag.
    pub const FIXED: u8 = 1;

    /// Allows the memory to be written to; by default it is read-only.
    pub const WRITE: u8 = 2;

    /// Don't allow the memory to be executed.
    pub const DISABLE_EXEC: u8 = 4;

    /// The given resource ID is a valid resource to map; by default the
    /// resource ID is ignored and the memory is associated with nothing.
    pub const MAP_RESOURCE: u8 = 8;

    /// The raw bits of this flag set.
    pub closed spec fn spec_bits(self) -> u8 {
        self.0
    }

    /// Builds a flag set from raw bits, keeping unknown bits as they are.
    pub fn from_bits_retaining(bits: u8) -> (r: Self)
        ensures
            r.spec_bits() == bits,
    {
        Self(bits)
    }

    /// Whether every bit of `other` is set in this flag set.
    pub fn contains(self, other: MemMapFlags) -> (r: bool)
        ensures
            r == ((self.spec_bits() & other.spec_bits()) == other.spec_bits()),
    {
        (self.0 & other.0) == other.0
    }

    pub fn or(self, rhs: Self) -> (r: Self)
        ensures
            r.spec_bits() == (self.spec_bits() | rhs.spec_bits()),
    {
        Self(self.0 | rhs.0)
    }

    pub fn and(self, rhs: Self) -> (r: Self)
        ensures
            r.spec_bits() == (self.spec_bits() & rhs.spec_bits()),
    {
        Self(self.0 & rhs.0)
    }
}

/// Flags for creating or opening a shared-memory descriptor, as a bit set.
#[derive(Debug, Clone, Copy, PartialEq, Eq, Structural)]
pub struct ShmFlags(u32);

impl ShmFlags {
    /// The opened resource's lifetime is bound by the current thread and not
    /// the process.
    pub const LOCAL: u32 = 1;

    /// The raw bits of this flag set.
    pub closed spec fn spec_bits(self) -> u32 {
        self.0
    }

    /// Builds a flag set from raw bits, keeping unknown bits as they are.
    pub fn from_bits_retaining(bits: u32) -> (r: Self)
        ensures
            r.spec_bits() == bits,
    {
        Self(bits)
    }

    /// Whether every bit of `other` is set in this flag set.
    pub fn contains(self, other: Self) -> (r: bool)
        ensures
            r == ((self.spec_bits() & other.spec_bits()) == other.spec_bits()),
    {
        (self.0 & other.0) == other.0
    }

    pub fn or(self, rhs: Self) -> (r: Self)
        ensures
            r.spec_bits() == (self.spec_bits() | rhs.spec_bits()),
    {
        Self(self.0 | rhs.0)
    }

    pub fn and(self, rhs: Self) -> (r: Self)
        ensures
            r.spec_bits() == (self.spec_bits() & rhs.spec_bits()),
    {
        Self(self.0 & rhs.0)
    }
}

} // verus!
