//! Outcome codes and the signed outcome word.
//!
//! [`ErrorStatus`] is the dense catalogue of failure codes carried across the
//! call gate; [`SysResult`] packs either a non-negative success payload or the
//! negated numeric code of an [`ErrorStatus`] into one signed machine word.
use vstd::prelude::*;

verus! {

/// A failure code carried across the call gate.
///
/// Codes are dense in `1..=MAX_CODE`; the numeric encoding of each variant is
/// given by [`ErrorStatus::code_spec`]. Codes outside the known range decode
/// to [`ErrorStatus::Unknown`], so a receiver can always interpret a sender's
/// code even when the sender is newer than the receiver.
#[derive(Debug, Clone, Copy, PartialEq, Eq, Structural)]
pub enum ErrorStatus {
    /// Use when no ErrorStatus is available for xyz and you cannot add a new one.
    Generic,
    OperationNotSupported,
    /// For example an elf class is not supported, there is a difference between NotSupported and OperationNotSupported.
    NotSupported,
    /// For example a magic value is invalid.
    Corrupted,
    InvalidSyscall,
    /// There is no Resource associated with a given ID.
    UnknownResource,
    InvalidPid,
    InvalidOffset,
    /// Instead of panicking syscalls will return this on null and unaligned pointers; some operations may accept null pointers.
    InvalidPtr,
    /// For operations that require a valid utf8 str.
    InvalidStr,
    /// For operations that require a str that doesn't exceed a max length such as file names.
    StrTooLong,
    InvalidPath,
    NoSuchAFileOrDirectory,
    NotAFile,
    NotADirectory,
    AlreadyExists,
    NotExecutable,
    DirectoryNotEmpty,
    /// Generic permissions (protection) related error.
    MissingPermissions,
    /// Memory mapping error; for now this means that the region has been already mapped before.
    MMapError,
    Busy,
    /// Sent by processes.
    NotEnoughArguments,
    OutOfMemory,
    /// Invalid Thread ID.
    InvalidTid,
    /// Operation timed out.
    Timeout,
    /// A given Command is unknown or invalid.
    InvalidCommand,
    /// A given Argument is invalid.
    InvalidArgument,
    /// Returned when a syscall reports an error code this build of the encoding layer is not aware of.
    Unknown,
    /// A panic or a fatal exception occurred; used for example to exit a process with a value after a runtime panic.
    Panic,
    /// A given resource wasn't a Device while one was expected.
    NotADevice,
    /// An operation on a resource would block while it was configured as not blockable.
    WouldBlock,
    /// A bi-directional connection closed from one side and not the other.
    ConnectionClosed,
    /// Attempt to form a connection failed.
    ConnectionRefused,
    /// There is a resource associated with the given ID but it isn't supported by that operation.
    UnsupportedResource,
    /// The given resource is not duplicatable.
    ResourceCloneFailed,
    /// A given X is incompatible with a Y in an operation that requires them to be compatible.
    TypeMismatch,
    /// A given buffer is too short to hold full information.
    TooShort,
    /// Failed to connect to an address because it wasn't found.
    AddressNotFound,
    /// A given input buffer size is not acceptable by the attempted operation.
    InvalidSize,
    /// The syscall was interrupted by something, such as a kill command.
    ForceTerminated,
    /// Attempt to use an address that's already used.
    AddressAlreadyInUse,
    /// Attempt to use an interface that's not bound to an address.
    NotBound,
}

impl ErrorStatus {
    /// The largest defined numeric code; update when a new code is added.
    pub const MAX_CODE: u16 = 0x2A;

    /// The numeric code of this error, as it appears on the wire.
    pub open spec fn code_spec(self) -> u16 {
        match self {
            ErrorStatus::Generic => 1,
            ErrorStatus::OperationNotSupported => 2,
            ErrorStatus::NotSupported => 3,
            ErrorStatus::Corrupted => 4,
            ErrorStatus::InvalidSyscall => 5,
            ErrorStatus::UnknownResource => 6,
            ErrorStatus::InvalidPid => 7,
            ErrorStatus::InvalidOffset => 8,
            ErrorStatus::InvalidPtr => 9,
            ErrorStatus::InvalidStr => 0xA,
            ErrorStatus::StrTooLong => 0xB,
            ErrorStatus::InvalidPath => 0xC,
            ErrorStatus::NoSuchAFileOrDirectory => 0xD,
            ErrorStatus::NotAFile => 0xE,
            ErrorStatus::NotADirectory => 0xF,
            ErrorStatus::AlreadyExists => 0x10,
            ErrorStatus::NotExecutable => 0x11,
            ErrorStatus::DirectoryNotEmpty => 0x12,
            ErrorStatus::MissingPermissions => 0x13,
            ErrorStatus::MMapError => 0x14,
            ErrorStatus::Busy => 0x15,
            ErrorStatus::NotEnoughArguments => 0x16,
            ErrorStatus::OutOfMemory => 0x17,
            ErrorStatus::InvalidTid => 0x18,
            ErrorStatus::Timeout => 0x19,
            ErrorStatus::InvalidCommand => 0x1A,
            ErrorStatus::InvalidArgument => 0x1B,
            ErrorStatus::Unknown => 0x1C,
            ErrorStatus::Panic => 0x1D,
            ErrorStatus::NotADevice => 0x1E,
            ErrorStatus::WouldBlock => 0x1F,
            ErrorStatus::ConnectionClosed => 0x20,
            ErrorStatus::ConnectionRefused => 0x21,
            ErrorStatus::UnsupportedResource => 0x22,
            ErrorStatus::ResourceCloneFailed => 0x23,
            ErrorStatus::TypeMismatch => 0x24,
            ErrorStatus::TooShort => 0x25,
            ErrorStatus::AddressNotFound => 0x26,
            ErrorStatus::InvalidSize => 0x27,
            ErrorStatus::ForceTerminated => 0x28,
            ErrorStatus::AddressAlreadyInUse => 0x29,
            ErrorStatus::NotBound => 0x2A,
        }
    }

    /// The error a given numeric code decodes to: the matching variant for
    /// codes in `1..=MAX_CODE`, and [`ErrorStatus::Unknown`] for everything
    /// else.
    pub open spec fn from_code_spec(value: u16) -> ErrorStatus {
        if value == 1 {
            ErrorStatus::Generic
        } else if value == 2 {
            ErrorStatus::OperationNotSupported
        } else if value == 3 {
            ErrorStatus::NotSupported
        } else if value == 4 {
            ErrorStatus::Corrupted
        } else if value == 5 {
            ErrorStatus::InvalidSyscall
        } else if value == 6 {
            ErrorStatus::UnknownResource
        } else if value == 7 {
            ErrorStatus::InvalidPid
        } else if value == 8 {
            ErrorStatus::InvalidOffset
        } else if value == 9 {
            ErrorStatus::InvalidPtr
        } else if value == 0xA {
            ErrorStatus::InvalidStr
        } else if value == 0xB {
            ErrorStatus::StrTooLong
        } else if value == 0xC {
            ErrorStatus::InvalidPath
        } else if value == 0xD {
            ErrorStatus::NoSuchAFileOrDirectory
        } else if value == 0xE {
            ErrorStatus::NotAFile
        } else if value == 0xF {
            ErrorStatus::NotADirectory
        } else if value == 0x10 {
            ErrorStatus::AlreadyExists
        } else if value == 0x11 {
            ErrorStatus::NotExecutable
        } else if value == 0x12 {
            ErrorStatus::DirectoryNotEmpty
        } else if value == 0x13 {
            ErrorStatus::MissingPermissions
        } else if value == 0x14 {
            ErrorStatus::MMapError
        } else if value == 0x15 {
            ErrorStatus::Busy
        } else if value == 0x16 {
            ErrorStatus::NotEnoughArguments
        } else if value == 0x17 {
            ErrorStatus::OutOfMemory
        } else if value == 0x18 {
            ErrorStatus::InvalidTid
        } else if value == 0x19 {
            ErrorStatus::Timeout
        } else if value == 0x1A {
            ErrorStatus::InvalidCommand
        } else if value == 0x1B {
            ErrorStatus::InvalidArgument
        } else if value == 0x1C {
            ErrorStatus::Unknown
        } else if value == 0x1D {
            ErrorStatus::Panic
        } else if value == 0x1E {
            ErrorStatus::NotADevice
        } else if value == 0x1F {
            ErrorStatus::WouldBlock
        } else if value == 0x20 {
            ErrorStatus::ConnectionClosed
        } else if value == 0x21 {
            ErrorStatus::ConnectionRefused
        } else if value == 0x22 {
            ErrorStatus::UnsupportedResource
        } else if value == 0x23 {
            ErrorStatus::ResourceCloneFailed
        } else if value == 0x24 {
            ErrorStatus::TypeMismatch
        } else if value == 0x25 {
            ErrorStatus::TooShort
        } else if value == 0x26 {
            ErrorStatus::AddressNotFound
        } else if value == 0x27 {
            ErrorStatus::InvalidSize
        } else if value == 0x28 {
            ErrorStatus::ForceTerminated
        } else if value == 0x29 {
            ErrorStatus::AddressAlreadyInUse
        } else if value == 0x2A {
            ErrorStatus::NotBound
        } else {
            ErrorStatus::Unknown
        }
    }

    /// The description of this error, as a sequence of characters.
    pub open spec fn describe_spec(self) -> Seq<char> {
        match self {
            ErrorStatus::Generic => "Generic Error"@,
            ErrorStatus::OperationNotSupported => "Operation Not Supported"@,
            ErrorStatus::NotSupported => "Object Not Supported"@,
            ErrorStatus::Corrupted => "Corrupted"@,
            ErrorStatus::InvalidSyscall => "Invalid Syscall"@,
            ErrorStatus::UnknownResource => "Unknown Resource ID"@,
            ErrorStatus::InvalidPid => "Invalid PID"@,
            ErrorStatus::InvalidOffset => "Invalid Offset"@,
            ErrorStatus::InvalidPtr => "Invalid Ptr (not aligned or null)"@,
            ErrorStatus::InvalidStr => "Invalid Str (not utf8)"@,
            ErrorStatus::StrTooLong => "Str too Long"@,
            ErrorStatus::InvalidPath => "Invalid Path"@,
            ErrorStatus::NoSuchAFileOrDirectory => "No Such a File or Directory"@,
            ErrorStatus::NotAFile => "Not a File"@,
            ErrorStatus::NotADirectory => "Not a Directory"@,
            ErrorStatus::AlreadyExists => "Already Exists"@,
            ErrorStatus::NotExecutable => "Not Executable"@,
            ErrorStatus::DirectoryNotEmpty => "Directory not Empty"@,
            ErrorStatus::MissingPermissions => "Missing Permissions"@,
            ErrorStatus::MMapError => "Memory Map Error (most likely out of memory)"@,
            ErrorStatus::Busy => "Resource Busy"@,
            ErrorStatus::NotEnoughArguments => "Not Enough Arguments"@,
            ErrorStatus::OutOfMemory => "Out of Memory"@,
            ErrorStatus::InvalidTid => "Invalid TID"@,
            ErrorStatus::Timeout => "Operation Timeouted"@,
            ErrorStatus::InvalidCommand => "Invalid Command"@,
            ErrorStatus::InvalidArgument => "Invalid Argument"@,
            ErrorStatus::Unknown => "Operation Unknown"@,
            ErrorStatus::Panic => "Unrecoverable Panick"@,
            ErrorStatus::NotADevice => "Not A Device"@,
            ErrorStatus::WouldBlock => "Operation Would Block"@,
            ErrorStatus::ConnectionClosed => "Connection Closed"@,
            ErrorStatus::ConnectionRefused => "Connection Refused"@,
            ErrorStatus::UnsupportedResource => "Resource not supported by that Operation"@,
            ErrorStatus::ResourceCloneFailed => "Failed to clone Resource"@,
            ErrorStatus::TypeMismatch => "Type Mismatch"@,
            ErrorStatus::TooShort => "Too Short"@,
            ErrorStatus::AddressNotFound => "Address Not Found"@,
            ErrorStatus::InvalidSize => "Invalid Size"@,
            ErrorStatus::ForceTerminated => "Operation Terminated"@,
            ErrorStatus::AddressAlreadyInUse => "Address Already In Use"@,
            ErrorStatus::NotBound => "Interface Not Bound"@,
        }
    }

    /// Gives a string description of the error.
    pub fn as_str(&self) -> (r: &'static str)
        ensures
            r@ == self.describe_spec(),
    {
        match *self {
            ErrorStatus::Generic => "Generic Error",
            ErrorStatus::OperationNotSupported => "Operation Not Supported",
            ErrorStatus::NotSupported => "Object Not Supported",
            ErrorStatus::Corrupted => "Corrupted",
            ErrorStatus::InvalidSyscall => "Invalid Syscall",
            ErrorStatus::UnknownResource => "Unknown Resource ID",
            ErrorStatus::InvalidPid => "Invalid PID",
            ErrorStatus::InvalidOffset => "Invalid Offset",
            ErrorStatus::InvalidPtr => "Invalid Ptr (not aligned or null)",
            ErrorStatus::InvalidStr => "Invalid Str (not utf8)",
            ErrorStatus::StrTooLong => "Str too Long",
            ErrorStatus::InvalidPath => "Invalid Path",
            ErrorStatus::NoSuchAFileOrDirectory => "No Such a File or Directory",
            ErrorStatus::NotAFile => "Not a File",
            ErrorStatus::NotADirectory => "Not a Directory",
            ErrorStatus::AlreadyExists => "Already Exists",
            ErrorStatus::NotExecutable => "Not Executable",
            ErrorStatus::DirectoryNotEmpty => "Directory not Empty",
            ErrorStatus::MissingPermissions => "Missing Permissions",
            ErrorStatus::MMapError => "Memory Map Error (most likely out of memory)",
            ErrorStatus::Busy => "Resource Busy",
            ErrorStatus::NotEnoughArguments => "Not Enough Arguments",
            ErrorStatus::OutOfMemory => "Out of Memory",
            ErrorStatus::InvalidTid => "Invalid TID",
            ErrorStatus::Timeout => "Operation Timeouted",
            ErrorStatus::InvalidCommand => "Invalid Command",
            ErrorStatus::InvalidArgument => "Invalid Argument",
            ErrorStatus::Unknown => "Operation Unknown",
            ErrorStatus::Panic => "Unrecoverable Panick",
            ErrorStatus::NotADevice => "Not A Device",
            ErrorStatus::WouldBlock => "Operation Would Block",
            ErrorStatus::ConnectionClosed => "Connection Closed",
            ErrorStatus::ConnectionRefused => "Connection Refused",
            ErrorStatus::UnsupportedResource => "Resource not supported by that Operation",
            ErrorStatus::ResourceCloneFailed => "Failed to clone Resource",
            ErrorStatus::TypeMismatch => "Type Mismatch",
            ErrorStatus::TooShort => "Too Short",
            ErrorStatus::AddressNotFound => "Address Not Found",
            ErrorStatus::InvalidSize => "Invalid Size",
            ErrorStatus::ForceTerminated => "Operation Terminated",
            ErrorStatus::AddressAlreadyInUse => "Address Already In Use",
            ErrorStatus::NotBound => "Interface Not Bound",
        }
    }

    /// The numeric code of this error, as it appears on the wire.
    pub fn as_u16(self) -> (r: u16)
        ensures
            r == self.code_spec(),
    {
        match self {
            ErrorStatus::Generic => 1,
            ErrorStatus::OperationNotSupported => 2,
            ErrorStatus::NotSupported => 3,
            ErrorStatus::Corrupted => 4,
            ErrorStatus::InvalidSyscall => 5,
            ErrorStatus::UnknownResource => 6,
            ErrorStatus::InvalidPid => 7,
            ErrorStatus::InvalidOffset => 8,
            ErrorStatus::InvalidPtr => 9,
            ErrorStatus::InvalidStr => 0xA,
            ErrorStatus::StrTooLong => 0xB,
            ErrorStatus::InvalidPath => 0xC,
            ErrorStatus::NoSuchAFileOrDirectory => 0xD,
            ErrorStatus::NotAFile => 0xE,
            ErrorStatus::NotADirectory => 0xF,
            ErrorStatus::AlreadyExists => 0x10,
            ErrorStatus::NotExecutable => 0x11,
            ErrorStatus::DirectoryNotEmpty => 0x12,
            ErrorStatus::MissingPermissions => 0x13,
            ErrorStatus::MMapError => 0x14,
            ErrorStatus::Busy => 0x15,
            ErrorStatus::NotEnoughArguments => 0x16,
            ErrorStatus::OutOfMemory => 0x17,
            ErrorStatus::InvalidTid => 0x18,
            ErrorStatus::Timeout => 0x19,
            ErrorStatus::InvalidCommand => 0x1A,
            ErrorStatus::InvalidArgument => 0x1B,
            ErrorStatus::Unknown => 0x1C,
            ErrorStatus::Panic => 0x1D,
            ErrorStatus::NotADevice => 0x1E,
            ErrorStatus::WouldBlock => 0x1F,
            ErrorStatus::ConnectionClosed => 0x20,
            ErrorStatus::ConnectionRefused => 0x21,
            ErrorStatus::UnsupportedResource => 0x22,
            ErrorStatus::ResourceCloneFailed => 0x23,
            ErrorStatus::TypeMismatch => 0x24,
            ErrorStatus::TooShort => 0x25,
            ErrorStatus::AddressNotFound => 0x26,
            ErrorStatus::InvalidSize => 0x27,
            ErrorStatus::ForceTerminated => 0x28,
            ErrorStatus::AddressAlreadyInUse => 0x29,
            ErrorStatus::NotBound => 0x2A,
        }
    }

    /// Tries to convert a given `value` into an error code; fails exactly on
    /// the numeric values that no defined code uses.
    pub fn try_from_u16(value: u16) -> (r: Result<Self, ()>)
        ensures
            1 <= value <= ErrorStatus::MAX_CODE <==> r is Ok,
            r matches Ok(e) ==> e == ErrorStatus::from_code_spec(value),
    {
        if 1 <= value && value <= Self::MAX_CODE {
            Ok(Self::from_u16(value))
        } else {
            Err(())
        }
    }

    /// Converts a given `value` into an error code; on an out-of-range value,
    /// returns [`Self::Unknown`].
    pub fn from_u16(value: u16) -> (r: Self)
        ensures
            r == ErrorStatus::from_code_spec(value),
    {
        match value {
            1 => ErrorStatus::Generic,
            2 => ErrorStatus::OperationNotSupported,
            3 => ErrorStatus::NotSupported,
            4 => ErrorStatus::Corrupted,
            5 => ErrorStatus::InvalidSyscall,
            6 => ErrorStatus::UnknownResource,
            7 => ErrorStatus::InvalidPid,
            8 => ErrorStatus::InvalidOffset,
            9 => ErrorStatus::InvalidPtr,
            0xA => ErrorStatus::InvalidStr,
            0xB => ErrorStatus::StrTooLong,
            0xC => ErrorStatus::InvalidPath,
            0xD => ErrorStatus::NoSuchAFileOrDirectory,
            0xE => ErrorStatus::NotAFile,
            0xF => ErrorStatus::NotADirectory,
            0x10 => ErrorStatus::AlreadyExists,
            0x11 => ErrorStatus::NotExecutable,
            0x12 => ErrorStatus::DirectoryNotEmpty,
            0x13 => ErrorStatus::MissingPermissions,
            0x14 => ErrorStatus::MMapError,
            0x15 => ErrorStatus::Busy,
            0x16 => ErrorStatus::NotEnoughArguments,
            0x17 => ErrorStatus::OutOfMemory,
            0x18 => ErrorStatus::InvalidTid,
            0x19 => ErrorStatus::Timeout,
            0x1A => ErrorStatus::InvalidCommand,
            0x1B => ErrorStatus::InvalidArgument,
            0x1C => ErrorStatus::Unknown,
            0x1D => ErrorStatus::Panic,
            0x1E => ErrorStatus::NotADevice,
            0x1F => ErrorStatus::WouldBlock,
            0x20 => ErrorStatus::ConnectionClosed,
            0x21 => ErrorStatus::ConnectionRefused,
            0x22 => ErrorStatus::UnsupportedResource,
            0x23 => ErrorStatus::ResourceCloneFailed,
            0x24 => ErrorStatus::TypeMismatch,
            0x25 => ErrorStatus::TooShort,
            0x26 => ErrorStatus::AddressNotFound,
            0x27 => ErrorStatus::InvalidSize,
            0x28 => ErrorStatus::ForceTerminated,
            0x29 => ErrorStatus::AddressAlreadyInUse,
            0x2A => ErrorStatus::NotBound,
            _ => ErrorStatus::Unknown,
        }
    }
}

/// The result of a call across the call gate: one signed machine word holding
/// either an `Ok` payload in `0..=isize::MAX` or the negated numeric code of
/// an [`ErrorStatus`].
#[derive(Debug, Clone, Copy, PartialEq, Eq, Structural)]
pub struct SysResult(isize);

/// What a signed outcome word decodes to: a non-negative word is the payload
/// itself; a negative word carries an error whose numeric code is the low 16
/// bits of the word's magnitude. Decoding is total: every word means
/// something, out-of-range codes falling back to [`ErrorStatus::Unknown`].
pub open spec fn decode_word(w: int) -> Result<int, ErrorStatus> {
    if w >= 0 {
        Ok(w)
    } else {
        Err(ErrorStatus::from_code_spec((((-w) % 0x10000) as u16)))
    }
}

impl SysResult {
    /// The raw signed word.
    pub closed spec fn spec_word(self) -> isize {
        self.0
    }

    /// Converts an error into a [`SysResult`] by negating its numeric code.
    pub fn err(err: ErrorStatus) -> (r: Self)
        ensures
            r.spec_word() == -(err.code_spec() as int),
            decode_word(r.spec_word() as int) == Err::<int, ErrorStatus>(err),
    {
        proof {
            lemma_code_roundtrip(err);
        }
        Self(-(err.as_u16() as isize))
    }

    /// Turns a [`SysResult`] into a result. This decoding is total: a receiver
    /// can always interpret an outcome word, even one carrying an error code
    /// invented after the receiver was built.
    pub fn into_result(self) -> (r: Result<usize, ErrorStatus>)
        ensures
            self.spec_word() >= 0 ==> r == Ok::<usize, ErrorStatus>(self.spec_word() as usize),
            self.spec_word() < 0 ==> r == Err::<usize, ErrorStatus>(
                ErrorStatus::from_code_spec((((-(self.spec_word() as int)) % 0x10000) as u16)),
            ),
    {
        if self.0 >= 0 {
            Ok(self.0 as usize)
        } else {
            let magnitude: i128 = -(self.0 as i128);
            let code: u16 = (magnitude % 0x10000) as u16;
            Err(ErrorStatus::from_u16(code))
        }
    }

    /// Attempts to convert a result into a [`SysResult`]; fails exactly when
    /// the value is `Ok(x)` with `x` larger than `isize::MAX`.
    pub fn try_from_result(result: Result<usize, ErrorStatus>) -> (r: Result<Self, ()>)
        ensures
            match result {
                Err(e) => r matches Ok(s) && s.spec_word() == -(e.code_spec() as int),
                Ok(value) => {
                    &&& value <= isize::MAX as usize <==> r is Ok
                    &&& r matches Ok(s) ==> s.spec_word() == value
                },
            },
    {
        match result {
            Err(err) => Ok(Self::err(err)),
            Ok(value) => Self::try_ok(value),
        }
    }

    /// Converts an `Ok` payload into a [`SysResult`]. Payloads that would
    /// occupy the word's negative half are a contract violation at the
    /// construction site, so they are excluded up front rather than encoded.
    pub fn ok(value: usize) -> (r: Self)
        requires
            value <= isize::MAX as usize,
        ensures
            r.spec_word() == value,
            decode_word(r.spec_word() as int) == Ok::<int, ErrorStatus>(value as int),
    {
        match Self::try_ok(value) {
            Ok(ok) => ok,
            // the precondition keeps the payload in range
            Err(()) => vstd::pervasive::unreached(),
        }
    }

    /// Tries to convert an `Ok` payload into a [`SysResult`]; fails exactly
    /// when the value is larger than `isize::MAX`.
    pub fn try_ok(value: usize) -> (r: Result<Self, ()>)
        ensures
            value <= isize::MAX as usize <==> r is Ok,
            r matches Ok(s) ==> s.spec_word() == value,
    {
        if value <= isize::MAX as usize {
            Ok(Self(value as isize))
        } else {
            Err(())
        }
    }

    /// Returns the raw signed word; a negative value carries an error.
    /// Prefer [`Self::into_result`].
    pub fn as_isize(&self) -> (r: isize)
        ensures
            r == self.spec_word(),
    {
        self.0
    }

    /// Converts a raw signed word into a [`SysResult`]. Total: this type does
    /// not guarantee that a negative word holds a defined error code.
    pub fn from_isize(value: isize) -> (r: Self)
        ensures
            r.spec_word() == value,
    {
        Self(value)
    }
}

/// Encoding a payload and decoding it back is the identity: for any payload
/// in `0..=isize::MAX`, the word that [`SysResult::ok`] or
/// [`SysResult::try_ok`] produces decodes to `Ok` of that same payload.
pub proof fn lemma_payload_roundtrip(p: int)
    requires
        0 <= p <= isize::MAX,
    ensures
        decode_word(p) == Ok::<int, ErrorStatus>(p),
{
}

/// Encoding an error and decoding it back is the identity: for every defined
/// error `k`, the word `-(code of k)` decodes to `Err(k)`, and the numeric
/// decoding maps the code of `k` back to `k`.
pub proof fn lemma_code_roundtrip(k: ErrorStatus)
    ensures
        ErrorStatus::from_code_spec(k.code_spec()) == k,
        decode_word(-(k.code_spec() as int)) == Err::<int, ErrorStatus>(k),
{
}

/// On the defined range the numeric decoding is a right inverse of the
/// encoding: decoding a code in `1..=MAX_CODE` gives a kind that encodes
/// back to that same code.
pub proof fn lemma_decode_then_encode(code: u16)
    requires
        1 <= code <= ErrorStatus::MAX_CODE,
    ensures
        ErrorStatus::from_code_spec(code).code_spec() == code,
{
}

/// Numeric codes outside the defined range (zero, or anything above
/// [`ErrorStatus::MAX_CODE`]) decode to [`ErrorStatus::Unknown`] rather than
/// failing: the forward-compatibility contract of the catalogue.
pub proof fn lemma_unknown_fallback(code: u16)
    requires
        code == 0 || code > ErrorStatus::MAX_CODE,
    ensures
        ErrorStatus::from_code_spec(code) == ErrorStatus::Unknown,
{
}

/// An error type that maps onto an outcome code.
pub trait IntoErr: Sized {
    /// The outcome code this error maps to.
    spec fn err_spec(self) -> ErrorStatus;

    /// Maps this error onto its outcome code.
    fn into_err(self) -> (r: ErrorStatus)
        ensures
            r == self.err_spec(),
    ;
}

} // verus!
