//! Inode-based operations, the bridge a FUSE mount needs between paths
//! and inode numbers.

use vstd::prelude::*;

use crate::error::FsError;
use crate::path::VfsPath;
use crate::types::Metadata;

verus! {

/// Inode-based operations.
pub trait FsInode: Send + Sync {
    /// The inode number of the entry at a path.
    fn path_to_inode(&self, path: &VfsPath) -> Result<u64, FsError>;

    /// One path of the entry with the given inode number.
    fn inode_to_path(&self, inode: u64) -> Result<VfsPath, FsError>;

    /// The inode of the child named `name` inside the directory with
    /// inode `parent_inode`.
    fn lookup(&self, parent_inode: u64, name: &str) -> Result<u64, FsError>;

    /// Metadata of the entry with the given inode number.
    fn metadata_by_inode(&self, inode: u64) -> Result<Metadata, FsError>;
}

} // verus!
