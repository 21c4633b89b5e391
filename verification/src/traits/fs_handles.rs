//! Handle-based file operations for POSIX compatibility: open a file once,
//! then read and write at offsets through the handle.

use vstd::prelude::*;

use crate::error::FsError;
use crate::path::VfsPath;
use crate::types::{Handle, OpenFlags};

verus! {

/// Handle-based file operations.
pub trait FsHandles: Send + Sync {
    /// Open a file and return a handle for it.
    fn open(&self, path: &VfsPath, flags: OpenFlags) -> Result<Handle, FsError>;

    /// Read into `buf` starting at byte `offset`; the result is the
    /// number of bytes read, zero at end of file.
    fn read_at(&self, handle: Handle, buf: &mut [u8], offset: u64) -> Result<usize, FsError>;

    /// Write `data` starting at byte `offset`; the result is the number
    /// of bytes written.
    fn write_at(&self, handle: Handle, data: &[u8], offset: u64) -> Result<usize, FsError>;

    /// Close a handle; it must not be used afterwards.
    fn close(&self, handle: Handle) -> Result<(), FsError>;
}

} // verus!
