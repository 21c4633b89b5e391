//! Permission operations.

use vstd::prelude::*;

use crate::error::FsError;
use crate::path::VfsPath;
use crate::types::Permissions;

verus! {

/// Setting permissions on a filesystem entry.
pub trait FsPermissions: Send + Sync {
    /// Set the permissions of the entry at `path`.
    fn set_permissions(&self, path: &VfsPath, perm: Permissions) -> Result<(), FsError>;
}

} // verus!
