//! Directory operations for virtual filesystems.

use vstd::prelude::*;

use crate::error::FsError;
use crate::path::VfsPath;
use crate::types::DirEntry;

verus! {

/// Directory operations for a virtual filesystem.
pub trait FsDir: Send + Sync {
    /// List directory contents.  The outer `Result` says whether the
    /// directory could be opened; each item of the iterator says whether
    /// that entry could be read.
    fn read_dir(&self, path: &VfsPath) -> Result<ReadDirIter, FsError>;

    /// Create a directory; the parent must exist.
    fn create_dir(&self, path: &VfsPath) -> Result<(), FsError>;

    /// Create a directory and all missing parents; succeeds if the
    /// directory already exists.
    fn create_dir_all(&self, path: &VfsPath) -> Result<(), FsError>;

    /// Remove an empty directory.
    fn remove_dir(&self, path: &VfsPath) -> Result<(), FsError>;

    /// Remove a directory and everything under it.
    fn remove_dir_all(&self, path: &VfsPath) -> Result<(), FsError>;
}

/// Whether position `k` of `s` holds the error `e` and everything before
/// it is readable: the shape of a short-circuited directory listing.
pub open spec fn first_error_at(s: Seq<Result<DirEntry, FsError>>, k: int, e: FsError) -> bool {
    0 <= k < s.len() && s[k] == Err::<DirEntry, FsError>(e) && (forall|j: int|
        0 <= j < k ==> s[j] is Ok)
}

/// Iterator over directory entries.  Its view is the sequence of entries
/// not yet handed out.
pub struct ReadDirIter {
    entries: Vec<Result<DirEntry, FsError>>,
}

impl View for ReadDirIter {
    type V = Seq<Result<DirEntry, FsError>>;

    closed spec fn view(&self) -> Seq<Result<DirEntry, FsError>> {
        self.entries@
    }
}

impl ReadDirIter {
    /// Create from a vector of entries, handed out in order.
    pub fn new(entries: Vec<Result<DirEntry, FsError>>) -> (r: Self)
        ensures
            r@ == entries@,
    {
        ReadDirIter { entries }
    }

    /// Create from a pre-collected vector.  Useful for middleware that
    /// merges several directory listings.
    pub fn from_vec(entries: Vec<Result<DirEntry, FsError>>) -> (r: Self)
        ensures
            r@ == entries@,
    {
        ReadDirIter { entries }
    }

    /// Hand out the next entry, or `None` when all are gone.
    pub fn next(&mut self) -> (r: Option<Result<DirEntry, FsError>>)
        ensures
            old(self)@.len() == 0 ==> (r is None && final(self)@ == old(self)@),
            old(self)@.len() > 0 ==> (r == Some(old(self)@[0]) && final(self)@ == old(
                self,
            )@.skip(1)),
    {
        if self.entries.len() == 0 {
            None
        } else {
            let e = self.entries.remove(0);
            Some(e)
        }
    }

    /// Give up the remaining entries as a vector.
    fn take_entries(self) -> (v: Vec<Result<DirEntry, FsError>>)
        ensures
            v@ == self@,
    {
        self.entries
    }

    /// Collect all entries, stopping at the first error: the result is
    /// every entry when all of them are readable, and otherwise the first
    /// error, with everything before it readable.
    pub fn collect_all(self) -> (r: Result<Vec<DirEntry>, FsError>)
        ensures
            r matches Ok(v) ==> v@.len() == self@.len() && forall|j: int|
                0 <= j < self@.len() ==> (#[trigger] self@[j] matches Ok(d) && v@[j] == d),
            r matches Err(e) ==> exists|k: int| #[trigger] first_error_at(self@, k, e),
    {
        let ghost all = self@;
        let mut entries = self.take_entries();
        let mut out: Vec<DirEntry> = Vec::new();
        let mut failure: Option<FsError> = None;
        while entries.len() > 0
            invariant_except_break
                out@.len() + entries@.len() == all.len(),
                entries@ == all.skip(out@.len() as int),
                forall|j: int|
                    0 <= j < out@.len() ==> (#[trigger] all[j] matches Ok(d) && out@[j] == d),
                failure is None,
            ensures
                failure matches Some(e) ==> exists|k: int| #[trigger] first_error_at(all, k, e),
                failure is None ==> out@.len() == all.len() && forall|j: int|
                    0 <= j < all.len() ==> (#[trigger] all[j] matches Ok(d) && out@[j] == d),
            decreases entries@.len(),
        {
            let ghost k = out@.len() as int;
            proof {
                assert(entries@[0] == all[k]);
                assert(entries@.skip(1) =~= all.skip(k + 1));
            }
            let e = entries.remove(0);
            match e {
                Ok(d) => {
                    out.push(d);
                },
                Err(err) => {
                    proof {
                        assert(all[k] == Err::<DirEntry, FsError>(err));
                        assert(forall|j: int| 0 <= j < k ==> all[j] is Ok);
                        assert(first_error_at(all, k, err));
                    }
                    failure = Some(err);
                    break;
                },
            }
        }
        match failure {
            Some(err) => Err(err),
            None => Ok(out),
        }
    }
}

} // verus!
