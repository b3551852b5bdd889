//! Directory related types.

use vstd::prelude::*;

verus! {

/// Represents an open directory.
#[derive(Debug, PartialEq, Eq, Copy, Clone, Structural)]
pub struct Handle(u8);

impl Handle {
    /// The numeric value carried by this handle.
    pub closed spec fn spec_value(&self) -> u8 {
        self.0
    }

    /// Construct a new `Handle` from an integer.
    ///
    /// Only the OS should call this - applications should not be constructing
    /// their own directory handles.
    pub fn new(value: u8) -> (h: Handle)
        ensures
            h.spec_value() == value,
    {
        Handle(value)
    }

    /// Get the numeric value of this Directory Handle.
    pub fn value(&self) -> (v: u8)
        ensures
            v == self.spec_value(),
    {
        self.0
    }
}

/// Describes an entry in a directory.
///
/// This is set up for 8.3 filenames on MS-DOS FAT32 partitions currently.
#[derive(Clone, Debug, PartialEq, Eq)]
pub struct Entry {
    /// The name and extension of the file.
    ///
    /// The name and extension are separated by a single '.'.
    ///
    /// The filename will be in ASCII. Unicode filenames are not supported.
    pub name: [u8; crate::MAX_FILENAME_LEN],
    /// The properties for the file/directory this entry represents.
    pub properties: crate::file::Stat,
}

} // verus!
