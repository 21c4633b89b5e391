//! The ghost model of a filesystem, as path resolution reads it.

use vstd::prelude::*;

use crate::path::CompView;

verus! {

/// What one entry of the filesystem is, seen through the queries that path
/// resolution makes: a regular file, a directory, or a symlink carrying its
/// raw (possibly relative) target path.
pub enum EntrySpec {
    /// A regular file.
    File,
    /// A directory.
    Directory,
    /// A symlink with the given raw target.
    Symlink(Seq<CompView>),
}

/// The ghost state that a backend exposes for specification.
///
/// `entry_map` is the table of entries the backend currently holds, keyed
/// by path.  `queries_total` says whether the query methods of the backend
/// answer from that table alone: when it holds, the contracts of the query
/// methods pin their results down exactly; without it they still promise
/// that every answer given is truthful of the table, but any query may
/// fail with an I/O-class error.
/// The defaults — an empty table and fallible queries — stand for a
/// backend that exposes no model at all: nothing useful is promised of
/// its queries, and a backend must supply its own table for the
/// resolution contracts to say anything.
pub trait FsState {
    /// The table of entries the backend currently holds, keyed by path.
    open spec fn entry_map(&self) -> Map<Seq<CompView>, EntrySpec> {
        Map::empty()
    }

    /// Whether the query methods answer from the entry table alone, with
    /// no I/O-class failures.
    open spec fn queries_total(&self) -> bool {
        false
    }
}

} // verus!
