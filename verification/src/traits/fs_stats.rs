//! Filesystem statistics.

use vstd::prelude::*;

use crate::error::FsError;
use crate::types::StatFs;

verus! {

/// Filesystem-level statistics.
pub trait FsStats: Send + Sync {
    /// Capacity, usage and limits of the filesystem as a whole.
    fn statfs(&self) -> Result<StatFs, FsError>;
}

} // verus!
