//! Polling records carried across the call gate.
use vstd::prelude::*;

verus! {

/// The set of I/O events a poll entry waits for or reports, as a bit set.
#[derive(Debug, Clone, Copy, PartialEq, Eq, Hash, Structural)]
pub struct PollEvents(u16);

impl PollEvents {
    /// Waiting for no events; ignored.
    pub const NONE: u16 = 0;

    /// Waiting for data to be available to read.
    pub const DATA_AVAILABLE: u16 = 1;

    /// Waiting for the resource to be writable without blocking.
    pub const CAN_WRITE: u16 = 2;

    /// The given resource is disconnected; usually returned rather than
    /// awaited. Reads may still be possible if there is data available.
    pub const DISCONNECTED: u16 = 4;

    /// Waiting for all events.
    pub const ALL: u16 = 0xFFFF;

    /// The raw bits of this event set.
    pub closed spec fn spec_bits(self) -> u16 {
        self.0
    }

    /// Builds an event set from raw bits.
    pub fn from_bits(bits: u16) -> (r: Self)
        ensures
            r.spec_bits() == bits,
    {
        Self(bits)
    }

    /// Whether every bit of `other` is set in this event set.
    pub fn contains(&self, other: Self) -> (r: bool)
        ensures
            r == ((self.spec_bits() & other.spec_bits()) == other.spec_bits()),
    {
        self.0 & other.0 == other.0
    }

    /// Whether this event set shares any bit with `other`.
    pub fn intersects(&self, other: Self) -> (r: bool)
        ensures
            r == ((self.spec_bits() & other.spec_bits()) != 0),
    {
        self.0 & other.0 != 0
    }

    /// Whether no event is set.
    pub fn is_empty(&self) -> (r: bool)
        ensures
            r == (self.spec_bits() == 0),
    {
        self.0 == 0
    }

    /// The events in either set.
    pub fn union(&self, other: Self) -> (r: Self)
        ensures
            r.spec_bits() == (self.spec_bits() | other.spec_bits()),
    {
        Self(self.0 | other.0)
    }

    /// The events in both sets.
    pub fn intersection(&self, other: Self) -> (r: Self)
        ensures
            r.spec_bits() == (self.spec_bits() & other.spec_bits()),
    {
        Self(self.0 & other.0)
    }

    /// The events in this set and not in `other`.
    pub fn difference(&self, other: Self) -> (r: Self)
        ensures
            r.spec_bits() == (self.spec_bits() & !other.spec_bits()),
    {
        Self(self.0 & !other.0)
    }
}

impl Default for PollEvents {
    /// The default waits for no events.
    fn default() -> (r: Self)
        ensures
            r.spec_bits() == 0,
    {
        PollEvents(0)
    }
}

/// The layout of a single entry handed to the polling call: the resource to
/// watch, the events to wait for, and the slot where the call gate reports the
/// events that occurred.
#[derive(Debug, Clone, Copy, PartialEq, Eq, Structural)]
pub struct PollEntry {
    resource: u32,
    events: PollEvents,
    returned_events: PollEvents,
}

impl PollEntry {
    /// Builds an entry waiting for `events` on `resource`, with no returned
    /// events yet.
    pub fn new(resource: u32, events: PollEvents) -> (r: Self)
        ensures
            r.spec_resource() == resource,
            r.spec_events() == events,
            r.spec_returned_events().spec_bits() == 0,
    {
        Self { resource, events, returned_events: PollEvents::from_bits(0) }
    }

    /// The resource ID watched by this entry.
    pub closed spec fn spec_resource(self) -> u32 {
        self.resource
    }

    /// The events this entry waits for.
    pub closed spec fn spec_events(self) -> PollEvents {
        self.events
    }

    /// The events the poll operation reported.
    pub closed spec fn spec_returned_events(self) -> PollEvents {
        self.returned_events
    }

    /// Returns the resource ID associated with this poll entry.
    pub fn resource(&self) -> (r: u32)
        ensures
            r == self.spec_resource(),
    {
        self.resource
    }

    /// Returns the events associated with this poll entry.
    pub fn events(&self) -> (r: PollEvents)
        ensures
            r == self.spec_events(),
    {
        self.events
    }

    /// Returns the events that were returned by the poll operation.
    pub fn returned_events(&self) -> (r: PollEvents)
        ensures
            r == self.spec_returned_events(),
    {
        self.returned_events
    }

    /// Returns a mutable reference to the events that were returned by the
    /// poll operation; the rest of the entry is untouched.
    pub fn returned_events_mut(&mut self) -> (r: &mut PollEvents)
        ensures
            *r == old(self).spec_returned_events(),
            final(self).spec_resource() == old(self).spec_resource(),
            final(self).spec_events() == old(self).spec_events(),
            final(self).spec_returned_events() == *final(r),
    {
        &mut self.returned_events
    }
}

} // verus!
