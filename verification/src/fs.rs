//! File-system related gate-crossing records.
use vstd::prelude::*;

use vstd::array::ArrayAdditionalExecFns;
use vstd::string::StringSliceAdditionalSpecFns;

use crate::consts::MAX_NAME_LENGTH;

verus! {

/// The kind of object a path resolves to.
#[derive(Debug, Clone, Copy, PartialEq, Eq, Structural)]
pub enum FSObjectType {
    File,
    Directory,
    Device,
}

/// The attributes of a file-system object, as the call gate reports them.
#[derive(Clone, Debug, PartialEq, Eq, Structural)]
pub struct FileAttr {
    pub kind: FSObjectType,
    pub size: usize,
}

impl FileAttr {
    pub fn new(kind: FSObjectType, size: usize) -> (r: Self)
        ensures
            r == (FileAttr { kind, size }),
    {
        Self { kind, size }
    }
}

/// A directory entry: the object's attributes and its name, held inline in a
/// fixed-size buffer with the used length beside it.
#[derive(Clone, Debug, PartialEq, Eq)]
pub struct DirEntry {
    pub attrs: FileAttr,
    pub name_length: usize,
    pub name: [u8; MAX_NAME_LENGTH],
}

impl DirEntry {
    /// Builds an entry from a name and attributes: the name's bytes fill the
    /// front of the fixed buffer and the rest stays zero.
    pub fn new(name: &str, attrs: FileAttr) -> (r: Self)
        requires
            name.spec_bytes().len() <= MAX_NAME_LENGTH,
        ensures
            r.attrs == attrs,
            r.name_length == name.spec_bytes().len(),
            forall|i: int|
                0 <= i < r.name_length ==> (#[trigger] r.name@[i]) == name.spec_bytes()[i],
            forall|i: int| r.name_length <= i < MAX_NAME_LENGTH ==> (#[trigger] r.name@[i]) == 0,
    {
        let bytes = name.as_bytes();
        let name_length = bytes.len();
        let mut name_bytes = [0u8; MAX_NAME_LENGTH];
        let mut i: usize = 0;
        while i < name_length
            invariant
                0 <= i <= name_length,
                name_length == bytes@.len() <= MAX_NAME_LENGTH,
                name_bytes@.len() == MAX_NAME_LENGTH,
                forall|k: int| 0 <= k < i ==> (#[trigger] name_bytes@[k]) == bytes@[k],
                forall|k: int| i <= k < MAX_NAME_LENGTH ==> (#[trigger] name_bytes@[k]) == 0,
            decreases name_length - i,
        {
            name_bytes.set(i, bytes[i]);
            i = i + 1;
        }
        Self { attrs, name_length, name: name_bytes }
    }
}

/// Describes the options for opening a file or directory, as a bit set.
#[derive(Debug, PartialEq, Eq, Clone, Copy, Structural)]
pub struct OpenOptions(u8);

impl OpenOptions {
    /// Open the file for writing.
    pub const WRITE: u8 = 1;

    /// Open the file for reading.
    pub const READ: u8 = 2;

    /// Create the file if it does not exist.
    pub const CREATE_FILE: u8 = 4;

    /// Create the directory if it does not exist (does not create parent
    /// directories).
    pub const CREATE_DIRECTORY: u8 = 8;

    /// Truncate the file to zero length if it already exists.
    pub const WRITE_TRUNCATE: u8 = 16;

    /// The raw bits of this option set.
    pub closed spec fn spec_bits(self) -> u8 {
        self.0
    }

    pub fn from_bits(bits: u8) -> (r: Self)
        ensures
            r.spec_bits() == bits,
    {
        Self(bits)
    }

    /// Whether this option set shares any bit with `other`.
    pub fn contains(self, other: Self) -> (r: bool)
        ensures
            r == ((self.spec_bits() & other.spec_bits()) != 0),
    {
        self.0 & other.0 != 0
    }

    /// Combines two option sets.
    pub fn or(self, other: Self) -> (r: Self)
        ensures
            r.spec_bits() == (self.spec_bits() | other.spec_bits()),
    {
        Self(self.0 | other.0)
    }

    pub fn is_write(&self) -> (r: bool)
        ensures
            r == ((self.spec_bits() & 1) != 0),
    {
        self.0 & Self::WRITE != 0
    }

    pub fn is_write_truncate(&self) -> (r: bool)
        ensures
            r == ((self.spec_bits() & 16) != 0),
    {
        self.0 & Self::WRITE_TRUNCATE != 0
    }

    pub fn is_read(&self) -> (r: bool)
        ensures
            r == ((self.spec_bits() & 2) != 0),
    {
        self.0 & Self::READ != 0
    }

    pub fn create_file(&self) -> (r: bool)
        ensures
            r == ((self.spec_bits() & 4) != 0),
    {
        self.0 & Self::CREATE_FILE != 0
    }

    pub fn create_dir(&self) -> (r: bool)
        ensures
            r == ((self.spec_bits() & 8) != 0),
    {
        self.0 & Self::CREATE_DIRECTORY != 0
    }
}

} // verus!
