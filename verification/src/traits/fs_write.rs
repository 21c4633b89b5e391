//! Write operations for virtual filesystems.

use vstd::prelude::*;

use crate::error::FsError;
use crate::path::VfsPath;

verus! {

/// Write operations for a virtual filesystem.
///
/// All methods take `&self`; backends manage their own synchronization
/// through interior mutability.
pub trait FsWrite: Send + Sync {
    /// Write the whole contents of a file, replacing what was there.
    fn write(&self, path: &VfsPath, data: &[u8]) -> Result<(), FsError>;

    /// Append data at the end of a file.
    fn append(&self, path: &VfsPath, data: &[u8]) -> Result<(), FsError>;

    /// Remove a file.
    fn remove_file(&self, path: &VfsPath) -> Result<(), FsError>;

    /// Rename or move a file or directory.
    fn rename(&self, from: &VfsPath, to: &VfsPath) -> Result<(), FsError>;

    /// Copy a file.
    fn copy(&self, from: &VfsPath, to: &VfsPath) -> Result<(), FsError>;

    /// Truncate or extend a file to exactly `size` bytes.
    fn truncate(&self, path: &VfsPath, size: u64) -> Result<(), FsError>;
}

} // verus!
