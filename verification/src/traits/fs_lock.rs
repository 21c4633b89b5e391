//! File locking.

use vstd::prelude::*;

use crate::error::FsError;
use crate::types::{Handle, LockType};

verus! {

/// File locking through handles.
pub trait FsLock: Send + Sync {
    /// Acquire a lock, waiting until it can be granted.
    fn lock(&self, handle: Handle, lock: LockType) -> Result<(), FsError>;

    /// Try to acquire a lock without waiting; the result says whether it
    /// was granted.
    fn try_lock(&self, handle: Handle, lock: LockType) -> Result<bool, FsError>;

    /// Release the lock held through `handle`.
    fn unlock(&self, handle: Handle) -> Result<(), FsError>;
}

} // verus!
