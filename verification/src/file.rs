//! File related types.

use vstd::prelude::*;

verus! {

/// Represents an open file.
#[derive(Copy, Clone, Debug, PartialEq, Eq, Structural)]
pub struct Handle(u8);

impl Handle {
    /// The magic file ID for Standard Input
    const STDIN: u8 = 0;

    /// The magic file ID for Standard Output
    const STDOUT: u8 = 1;

    /// The magic file ID for Standard Error
    const STDERR: u8 = 2;

    /// The numeric value carried by this handle.
    pub closed spec fn spec_value(&self) -> u8 {
        self.0
    }

    /// Construct a new `Handle` from an integer.
    ///
    /// Only the OS should call this - applications should not be constructing
    /// their own file handles.
    pub fn new(value: u8) -> (h: Handle)
        ensures
            h.spec_value() == value,
    {
        Handle(value)
    }

    /// Create a file handle for Standard Input.
    pub fn new_stdin() -> (h: Handle)
        ensures
            h.spec_value() == 0,
    {
        Handle(Self::STDIN)
    }

    /// Create a file handle for Standard Output.
    pub fn new_stdout() -> (h: Handle)
        ensures
            h.spec_value() == 1,
    {
        Handle(Self::STDOUT)
    }

    /// Create a file handle for Standard Error.
    pub fn new_stderr() -> (h: Handle)
        ensures
            h.spec_value() == 2,
    {
        Handle(Self::STDERR)
    }

    /// Get the numeric value of this File Handle.
    pub fn value(&self) -> (v: u8)
        ensures
            v == self.spec_value(),
    {
        self.0
    }
}

/// Describes a file on disk.
///
/// This is set up for 8.3 filenames on MS-DOS FAT32 partitions currently.
#[derive(Clone, Debug, PartialEq, Eq)]
pub struct Stat {
    /// How big is this file
    pub file_size: u64,
    /// When was the file created
    pub ctime: Time,
    /// When was the file last modified
    pub mtime: Time,
    /// File attributes (Directory, Volume, etc)
    pub attr: Attributes,
}

/// Flags to pass when opening a file.
///
/// A set of named bits combinable with [`Flags::union`] and
/// [`Flags::intersection`].
#[derive(Clone, Copy, Debug, PartialEq, Eq, Structural)]
pub struct Flags(pub u8);

impl Flags {
    /// Enable write support for this file.
    pub const WRITE: u8 = 0x01;

    /// Create the file if it doesn't exist.
    pub const CREATE: u8 = 0x02;

    /// Truncate the file to zero length upon opening.
    pub const TRUNCATE: u8 = 0x04;

    /// The empty set of flags.
    pub fn empty() -> (f: Flags)
        ensures
            f.0 == 0,
    {
        Flags(0)
    }

    /// Construct a flag set from its raw bits.
    pub fn from_bits(bits: u8) -> (f: Flags)
        ensures
            f.0 == bits,
    {
        Flags(bits)
    }

    /// Get the raw bits of this flag set.
    pub fn bits(&self) -> (b: u8)
        ensures
            b == self.0,
    {
        self.0
    }

    /// The set of flags present in either `self` or `other`.
    pub fn union(self, other: Flags) -> (f: Flags)
        ensures
            f.0 == (self.0 | other.0),
    {
        Flags(self.0 | other.0)
    }

    /// The set of flags present in both `self` and `other`.
    pub fn intersection(self, other: Flags) -> (f: Flags)
        ensures
            f.0 == (self.0 & other.0),
    {
        Flags(self.0 & other.0)
    }

    /// Does `self` contain every flag set in `other`?
    pub fn contains(self, other: Flags) -> (b: bool)
        ensures
            b == ((self.0 & other.0) == other.0),
    {
        (self.0 & other.0) == other.0
    }
}

/// The attributes a file on disk can have.
///
/// Based on those supported by the FAT32 file system.
#[derive(Clone, Copy, Debug, PartialEq, Eq, Structural)]
pub struct Attributes(pub u8);

impl Attributes {
    /// File is read-only
    pub const READ_ONLY: u8 = 0x01;

    /// File should not appear in directory listing
    pub const HIDDEN: u8 = 0x02;

    /// File should not be moved on disk
    pub const SYSTEM: u8 = 0x04;

    /// File is a volume label
    pub const VOLUME: u8 = 0x08;

    /// File is a directory
    pub const DIRECTORY: u8 = 0x10;

    /// File has not been backed up
    pub const ARCHIVE: u8 = 0x20;

    /// File is actually a device
    pub const DEVICE: u8 = 0x40;

    /// The empty set of attributes.
    pub fn empty() -> (a: Attributes)
        ensures
            a.0 == 0,
    {
        Attributes(0)
    }

    /// Construct an attribute set from its raw bits.
    pub fn from_bits(bits: u8) -> (a: Attributes)
        ensures
            a.0 == bits,
    {
        Attributes(bits)
    }

    /// Get the raw bits of this attribute set.
    pub fn bits(&self) -> (b: u8)
        ensures
            b == self.0,
    {
        self.0
    }

    /// The set of attributes present in either `self` or `other`.
    pub fn union(self, other: Attributes) -> (a: Attributes)
        ensures
            a.0 == (self.0 | other.0),
    {
        Attributes(self.0 | other.0)
    }

    /// The set of attributes present in both `self` and `other`.
    pub fn intersection(self, other: Attributes) -> (a: Attributes)
        ensures
            a.0 == (self.0 & other.0),
    {
        Attributes(self.0 & other.0)
    }

    /// Does `self` contain every attribute set in `other`?
    pub fn contains(self, other: Attributes) -> (b: bool)
        ensures
            b == ((self.0 & other.0) == other.0),
    {
        (self.0 & other.0) == other.0
    }
}

/// Represents an instant in time, in the local time zone.
#[derive(Debug, Copy, Clone, PartialOrd, Ord, PartialEq, Eq, Structural)]
pub struct Time {
    /// Add 1970 to this field to get the calendar year
    pub year_since_1970: u8,
    /// Add one to this value to get the calendar month
    pub zero_indexed_month: u8,
    /// Add one to this value to get the calendar day
    pub zero_indexed_day: u8,
    /// The number of hours past midnight
    pub hours: u8,
    /// The number of minutes past the hour
    pub minutes: u8,
    /// The number of seconds past the minute
    pub seconds: u8,
}

} // verus!
