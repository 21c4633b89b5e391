//! Synchronization to durable storage.

use vstd::prelude::*;

use crate::error::FsError;
use crate::path::VfsPath;

verus! {

/// Forcing written data out to durable storage.
pub trait FsSync: Send + Sync {
    /// Flush everything the filesystem holds.
    fn sync(&self) -> Result<(), FsError>;

    /// Flush one file.
    fn fsync(&self, path: &VfsPath) -> Result<(), FsError>;
}

} // verus!
