//! Convenience methods for filesystem backends.

use vstd::prelude::*;

use crate::error::FsError;
use crate::path::VfsPath;
use crate::traits::Fs;

verus! {

/// Extension methods available on any [`Fs`] backend through the blanket
/// implementation.
///
/// The existence checks answer `Ok(false)` for a missing path instead of
/// failing, and pass every other error through.
pub trait FsExt: Fs {
    /// Whether the path points at a regular file.  A missing path is
    /// `Ok(false)`, not an error.
    fn is_file(&self, path: &VfsPath) -> (r: Result<bool, FsError>)
        ensures
            !self.entry_map().contains_key(path@) ==> r == Ok::<bool, FsError>(false),
            self.queries_total() && self.entry_map().contains_key(path@)
                && self.entry_map()[path@] is File ==> r == Ok::<bool, FsError>(true),
            self.queries_total() && self.entry_map().contains_key(path@)
                && self.entry_map()[path@] is Directory ==> r == Ok::<bool, FsError>(false),
    {
        match self.metadata(path) {
            Ok(m) => Ok(m.is_file()),
            Err(e) => match e {
                FsError::NotFound { .. } => Ok(false),
                other => Err(other),
            },
        }
    }

    /// Whether the path points at a directory.  A missing path is
    /// `Ok(false)`, not an error.
    fn is_dir(&self, path: &VfsPath) -> (r: Result<bool, FsError>)
        ensures
            !self.entry_map().contains_key(path@) ==> r == Ok::<bool, FsError>(false),
            self.queries_total() && self.entry_map().contains_key(path@)
                && self.entry_map()[path@] is Directory ==> r == Ok::<bool, FsError>(true),
            self.queries_total() && self.entry_map().contains_key(path@)
                && self.entry_map()[path@] is File ==> r == Ok::<bool, FsError>(false),
    {
        match self.metadata(path) {
            Ok(m) => Ok(m.is_dir()),
            Err(e) => match e {
                FsError::NotFound { .. } => Ok(false),
                other => Err(other),
            },
        }
    }

    /// Whether the path points at a symbolic link.  This goes through
    /// [`metadata`](crate::FsRead::metadata), which follows symlinks, so
    /// a backend that resolves the link reports the target's type; a
    /// missing path is `Ok(false)`, not an error.
    fn is_symlink(&self, path: &VfsPath) -> (r: Result<bool, FsError>)
        ensures
            !self.entry_map().contains_key(path@) ==> r == Ok::<bool, FsError>(false),
            self.queries_total() && self.entry_map().contains_key(path@)
                && self.entry_map()[path@] is File ==> r == Ok::<bool, FsError>(false),
            self.queries_total() && self.entry_map().contains_key(path@)
                && self.entry_map()[path@] is Directory ==> r == Ok::<bool, FsError>(false),
    {
        match self.metadata(path) {
            Ok(m) => Ok(m.is_symlink()),
            Err(e) => match e {
                FsError::NotFound { .. } => Ok(false),
                other => Err(other),
            },
        }
    }

    /// The size of a file in bytes; a missing path is an error here.
    fn file_size(&self, path: &VfsPath) -> (r: Result<u64, FsError>)
        ensures
            !self.entry_map().contains_key(path@) ==> (r matches Err(e) && e is NotFound),
    {
        match self.metadata(path) {
            Ok(m) => Ok(m.size),
            Err(e) => Err(e),
        }
    }
}

impl<B: Fs + ?Sized> FsExt for B {

}

} // verus!
