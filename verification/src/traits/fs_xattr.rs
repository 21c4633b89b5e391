//! Extended attributes: name-value pairs attached to files and
//! directories.

use vstd::prelude::*;

use crate::error::FsError;
use crate::path::VfsPath;

verus! {

/// Extended attribute operations.
pub trait FsXattr: Send + Sync {
    /// The value of the attribute `name` at `path`.
    fn get_xattr(&self, path: &VfsPath, name: &str) -> Result<Vec<u8>, FsError>;

    /// Set the attribute `name` at `path`, creating or replacing it.
    fn set_xattr(&self, path: &VfsPath, name: &str, value: &[u8]) -> Result<(), FsError>;

    /// Remove the attribute `name` at `path`.
    fn remove_xattr(&self, path: &VfsPath, name: &str) -> Result<(), FsError>;

    /// The names of all attributes at `path`.
    fn list_xattr(&self, path: &VfsPath) -> Result<Vec<String>, FsError>;
}

} // verus!
