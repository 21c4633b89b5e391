//! Symlink and hard link operations.

use vstd::prelude::*;

use crate::error::FsError;
use crate::model::{EntrySpec, FsState};
use crate::path::VfsPath;
use crate::types::Metadata;

verus! {

/// Symlink and hard link operations.
///
/// The contracts of [`read_link`](FsLink::read_link) and
/// [`symlink_metadata`](FsLink::symlink_metadata) speak of the backend's
/// [`entry_map`](FsState::entry_map), in the same way as the query
/// contracts of [`FsRead`](crate::FsRead): answers must be truthful of the
/// entry table, absence is reported as `NotFound` carrying the queried
/// path and never claimed of a present entry, and a backend whose queries
/// are total must answer rather than fail.
pub trait FsLink: FsState + Send + Sync {
    /// Create a symbolic link at `link` pointing at `target` (which need
    /// not exist).
    fn symlink(&self, target: &VfsPath, link: &VfsPath) -> Result<(), FsError>;

    /// Create a hard link at `link` to the existing file `original`.
    fn hard_link(&self, original: &VfsPath, link: &VfsPath) -> Result<(), FsError>;

    /// The raw (not canonicalized) target of the symlink at `path`.
    /// A non-symlink entry is answered with an `InvalidData` error
    /// carrying the queried path; a missing one with `NotFound`.
    fn read_link(&self, path: &VfsPath) -> (r: Result<VfsPath, FsError>)
        ensures
            r matches Ok(t) ==> (self.entry_map().contains_key(path@) && (self.entry_map()[path@]
                matches EntrySpec::Symlink(target) && t@ == target)),
            r matches Err(e) ==> ((e is NotFound <==> !self.entry_map().contains_key(path@)) && (
            e matches FsError::NotFound { path: p } ==> p@ == path@)),
            self.entry_map().contains_key(path@) && !(self.entry_map()[path@] is Symlink) ==> (
            r matches Err(e) && e matches FsError::InvalidData { path: p, .. } && p@ == path@),
            self.queries_total() && self.entry_map().contains_key(path@)
                && self.entry_map()[path@] is Symlink ==> r is Ok,
    ;

    /// Metadata for a path without following a final symlink.  An `Ok`
    /// answer reports the entry type exactly as the entry table holds it;
    /// a missing entry is answered with `NotFound` carrying the queried
    /// path, and `NotFound` is never the answer for a present entry.
    fn symlink_metadata(&self, path: &VfsPath) -> (r: Result<Metadata, FsError>)
        ensures
            r matches Ok(m) ==> (self.entry_map().contains_key(path@) && (m.file_type is Symlink
                <==> self.entry_map()[path@] is Symlink) && (m.file_type is File
                <==> self.entry_map()[path@] is File) && (m.file_type is Directory
                <==> self.entry_map()[path@] is Directory)),
            r matches Err(e) ==> ((e is NotFound <==> !self.entry_map().contains_key(path@)) && (
            e matches FsError::NotFound { path: p } ==> p@ == path@)),
            self.queries_total() && self.entry_map().contains_key(path@) ==> r is Ok,
    ;
}

} // verus!
