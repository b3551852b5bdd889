//! Application-facing storage API types for a small MS-DOS-like operating
//! system, together with a verified path parser.
//!
//! The heart of the crate is [`path::Path`]: a validated textual file path
//! from which the drive specifier, directory, filename and extension can be
//! read back. The remaining modules declare the plain data types that travel
//! across the system-call boundary: file and directory handles, directory
//! entries, file statistics, timestamps and flag sets.

use vstd::prelude::*;

pub mod dir;
pub mod file;
pub mod path;

pub use path::Path;

verus! {

/// Maximum length of a filename (with no directory components), including the
/// extension.
pub const MAX_FILENAME_LEN: usize = 11;

/// Describes how something has failed.
#[derive(Debug, Copy, Clone, PartialEq, Eq, Structural)]
pub enum Error {
    /// The given file path was not found
    FileNotFound,
    /// Tried to write to a read-only file
    FileReadOnly,
    /// Reached the end of the file
    EndOfFile,
    /// The API has not been implemented
    Unimplemented,
    /// An invalid argument was given to the API
    InvalidArg,
    /// A bad file handle was given to the API
    BadFileHandle,
    /// A device-specific error occurred
    DeviceSpecific,
    /// The OS does not have enough memory
    OutOfMemory,
    /// The given path was invalid
    InvalidPath,
}

} // verus!
