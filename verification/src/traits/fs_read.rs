//! Read operations for virtual filesystems.

use vstd::prelude::*;

use crate::error::FsError;
use crate::model::FsState;
use crate::path::VfsPath;
use crate::types::Metadata;

verus! {

/// Read operations for a virtual filesystem.
///
/// All methods take `&self`; backends manage their own synchronization
/// through interior mutability.
///
/// The contracts of [`exists`](FsRead::exists) and
/// [`metadata`](FsRead::metadata) speak of the backend's
/// [`entry_map`](FsState::entry_map): every answer given must be truthful
/// of the entry table, an entry that is absent must be reported as
/// `NotFound`, and a backend whose queries are total
/// ([`queries_total`](FsState::queries_total)) must answer rather than
/// fail.  A backend may fail a query only for genuine I/O-class reasons,
/// and never with a `NotFound` error on a path its table holds.
pub trait FsRead: FsState + Send + Sync {
    /// Read entire file contents as bytes.
    fn read(&self, path: &VfsPath) -> Result<Vec<u8>, FsError>;

    /// Read file contents as a UTF-8 string.
    fn read_to_string(&self, path: &VfsPath) -> Result<String, FsError>;

    /// Read at most `len` bytes of a file, starting at byte `offset`.
    fn read_range(&self, path: &VfsPath, offset: u64, len: usize) -> Result<Vec<u8>, FsError>;

    /// Whether a path exists.  An `Ok` answer is exactly the entry
    /// table's answer; an error is possible only for I/O-class failures.
    fn path_exists(&self, path: &VfsPath) -> (r: Result<bool, FsError>)
        ensures
            r matches Ok(b) ==> b == self.entry_map().contains_key(path@),
            self.queries_total() ==> r is Ok,
    ;

    /// Metadata for a path, following a final symlink.  An `Ok` answer
    /// means the path occupies the table, and for a file or directory
    /// entry the reported type is the entry's own; for a symlink entry the
    /// type (and whether the call succeeds at all) depends on the target.
    fn metadata(&self, path: &VfsPath) -> (r: Result<Metadata, FsError>)
        ensures
            r matches Ok(m) ==> self.entry_map().contains_key(path@) && (self.entry_map()[path@]
                is File ==> m.file_type is File) && (self.entry_map()[path@] is Directory
                ==> m.file_type is Directory),
            !self.entry_map().contains_key(path@) ==> (r matches Err(e) && e is NotFound),
            self.queries_total() && self.entry_map().contains_key(path@) && !(self.entry_map()[path@] is Symlink)
                ==> r is Ok,
    ;
}

} // verus!
