//! The errors of the file system.

use vstd::prelude::*;
use vstd::string::*;

verus! {

/// Why a file-system operation failed.
#[derive(Clone, Copy, Debug, PartialEq, Eq, Structural)]
pub enum VfsError {
    /// The identifier or the path names nothing.
    NotFound,
    /// The path has no final segment, or the place it names for a new node
    /// is not a directory.
    InvalidPath,
    /// The path names a file where a directory is asked for.
    NotADirectory,
}

impl VfsError {
    /// The text of the message for this error.
    pub open spec fn message_text(self) -> Seq<char> {
        match self {
            VfsError::NotFound => "Not found"@,
            VfsError::InvalidPath => "Invalid path"@,
            VfsError::NotADirectory => "Path is not a directory"@,
        }
    }

    /// A message for a human reader.
    pub fn message(&self) -> (m: String)
        ensures
            m@ == self.message_text(),
    {
        match self {
            VfsError::NotFound => String::from_str("Not found"),
            VfsError::InvalidPath => String::from_str("Invalid path"),
            VfsError::NotADirectory => String::from_str("Path is not a directory"),
        }
    }
}

} // verus!
