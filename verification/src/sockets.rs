//! Socket address records and socket flag sets carried across the call gate.
use vstd::prelude::*;

use vstd::array::ArrayAdditionalExecFns;
use vstd::string::StringSliceAdditionalSpecFns;

use crate::consts::MAX_NAME_LENGTH;

verus! {

/// An address type of a known socket family, convertible to the generic
/// address header.
pub trait ToSocketAddr: Sized {
    /// The family tag of this address type, corresponding to a
    /// [`SockDomain`] value.
    spec fn spec_family() -> u32;

    /// The family tag of this address type.
    fn family() -> (r: u32)
        ensures
            r == Self::spec_family(),
    ;
}

/// The generic header every socket address starts with.
///
/// The actual structure varies by family: the records of each family carry
/// this header as their first field, and a receiver reads the family tag to
/// learn which record follows.
#[derive(Debug, Clone, Copy, PartialEq, Eq, Structural)]
pub struct SocketAddr {
    pub sin_family: u32,
}

/// A local-family socket address: the generic header followed by a name.
#[derive(Debug, Clone, PartialEq, Eq)]
pub struct LocalSocketAddr {
    pub sin_family: u32,
    /// Must be valid UTF-8; the used length is provided to socket calls
    /// separately.
    pub sin_name: [u8; MAX_NAME_LENGTH],
}

impl ToSocketAddr for LocalSocketAddr {
    open spec fn spec_family() -> u32 {
        SockDomain::LOCAL as u32
    }

    fn family() -> (r: u32) {
        SockDomain::LOCAL as u32
    }
}

impl LocalSocketAddr {
    /// Creates a local binding address from name bytes; the bytes up to the
    /// used length must be valid UTF-8.
    pub fn new(name: [u8; MAX_NAME_LENGTH]) -> (r: Self)
        ensures
            r.sin_family == LocalSocketAddr::spec_family(),
            r.sin_name == name,
    {
        Self { sin_family: Self::family(), sin_name: name }
    }

    /// Creates an abstract binding address from a name, returning the
    /// address and the record length to pass to socket calls: the name's
    /// byte length plus the size of the generic header.
    pub fn new_abstract_from(name: &str) -> (r: (Self, usize))
        requires
            name.spec_bytes().len() <= MAX_NAME_LENGTH,
        ensures
            r.0.sin_family == LocalSocketAddr::spec_family(),
            forall|i: int|
                0 <= i < name.spec_bytes().len() ==> (#[trigger] r.0.sin_name@[i])
                    == name.spec_bytes()[i],
            forall|i: int|
                name.spec_bytes().len() <= i < MAX_NAME_LENGTH ==> (#[trigger] r.0.sin_name@[i])
                    == 0,
            r.1 == name.spec_bytes().len() + vstd::layout::size_of::<SocketAddr>(),
    {
        vstd::layout::layout_for_type_is_valid::<SocketAddr>();
        let name_bytes = name.as_bytes();
        let used = name_bytes.len();
        let mut bytes = [0u8; MAX_NAME_LENGTH];
        let mut i: usize = 0;
        while i < used
            invariant
                0 <= i <= used,
                used == name_bytes@.len() <= MAX_NAME_LENGTH,
                bytes@.len() == MAX_NAME_LENGTH,
                forall|k: int| 0 <= k < i ==> (#[trigger] bytes@[k]) == name_bytes@[k],
                forall|k: int| i <= k < MAX_NAME_LENGTH ==> (#[trigger] bytes@[k]) == 0,
            decreases used - i,
        {
            bytes.set(i, name_bytes[i]);
            i = i + 1;
        }
        let header_size = core::mem::size_of::<SocketAddr>();
        (Self { sin_family: Self::family(), sin_name: bytes }, used + header_size)
    }
}

/// The domain a socket is created in.
#[derive(Debug, Clone, Copy, PartialEq, Eq, Structural)]
pub struct SockDomain(pub u8);

impl SockDomain {
    /// Local domain sockets.
    pub const LOCAL: u8 = 0;

    /// The internet domain, IPv4.
    pub const INETV4: u8 = 1;
}

/// Flags for creating a socket, as a bit set; also carries the socket type.
/// By default the type is a blocking stream socket.
#[derive(Debug, Clone, Copy, PartialEq, Eq, Structural)]
pub struct SockCreateKind(u16);

impl SockCreateKind {
    /// A stream socket; only allowed for local domain sockets.
    pub const SOCK_STREAM: u16 = 0;

    /// A seq-packet socket: unlike stream sockets, the default for local
    /// sockets, this preserves message boundaries.
    pub const SOCK_SEQPACKET: u16 = 1;

    /// A datagram socket; only allowed for network domain sockets, UDP by
    /// default, preserves message boundaries.
    pub const SOCK_DGRAM: u16 = 2;

    /// A non-blocking socket: anything that would normally block reports
    /// [`crate::errors::ErrorStatus::WouldBlock`] instead, except for the
    /// connect call.
    pub const SOCK_NON_BLOCKING: u16 = 0x8000;

    /// The raw bits of this flag set.
    pub closed spec fn spec_bits(self) -> u16 {
        self.0
    }

    /// Whether every bit of `other` is set in this flag set.
    pub fn contains(&self, other: Self) -> (r: bool)
        ensures
            r == ((self.spec_bits() & other.spec_bits()) == other.spec_bits()),
    {
        (self.0 & other.0) == other.0
    }

    /// Builds a flag set from raw bits, keeping unknown bits as they are.
    pub fn from_bits_retaining(bits: u16) -> (r: Self)
        ensures
            r.spec_bits() == bits,
    {
        Self(bits)
    }

    pub fn or(self, rhs: Self) -> (r: Self)
        ensures
            r.spec_bits() == (self.spec_bits() | rhs.spec_bits()),
    {
        Self(self.0 | rhs.0)
    }
}

/// Flags for a message transmitted to or received from a socket, as a bit
/// set.
#[derive(Debug, Clone, Copy, PartialEq, Eq, Structural)]
pub struct SockMsgFlags(u32);

impl SockMsgFlags {
    pub const NONE: u32 = 0;

    /// Return an error if sending or receiving the message would block,
    /// instead of blocking.
    pub const DONT_WAIT: u32 = 1;

    /// For a receive operation, only read the message without removing it
    /// from the queue, so another receive reads the same message. Defined
    /// with the same bit value as [`Self::DONT_WAIT`] in the wire format as
    /// it stands.
    pub const PEEK: u32 = 1;

    /// The raw bits of this flag set.
    pub closed spec fn spec_bits(self) -> u32 {
        self.0
    }

    /// Whether every bit of `other` is set in this flag set.
    pub fn contains(&self, other: Self) -> (r: bool)
        ensures
            r == ((self.spec_bits() & other.spec_bits()) == other.spec_bits()),
    {
        (self.0 & other.0) == other.0
    }

    /// Builds a flag set from raw bits, keeping unknown bits as they are.
    pub fn from_bits_retaining(bits: u32) -> (r: Self)
        ensures
            r.spec_bits() == bits,
    {
        Self(bits)
    }

    /// The raw bits of this flag set.
    pub fn into_bits(self) -> (r: u32)
        ensures
            r == self.spec_bits(),
    {
        self.0
    }

    pub fn or(self, rhs: Self) -> (r: Self)
        ensures
            r.spec_bits() == (self.spec_bits() | rhs.spec_bits()),
    {
        Self(self.0 | rhs.0)
    }

    pub fn and(self, rhs: Self) -> (r: Self)
        ensures
            r.spec_bits() == (self.spec_bits() & rhs.spec_bits()),
    {
        Self(self.0 & rhs.0)
    }

    pub fn not(self) -> (r: Self)
        ensures
            r.spec_bits() == !self.spec_bits(),
    {
        Self(!self.0)
    }
}

} // verus!
