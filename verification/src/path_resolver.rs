//! The strategy interface for pluggable path resolution.

use vstd::prelude::*;

use crate::error::FsError;
use crate::path::{CompView, VfsPath};
use crate::traits::{
    canonicalize_spec, default_canonicalize, default_soft_canonicalize, resolve_outcome_matches,
    soft_canonicalize_spec, FsLink, FsRead, ResolveErr,
};

verus! {

/// Strategy trait for path resolution over a backend of type `F`.
///
/// Every implementation must honour the same contract as the default
/// walk: a returned path is exactly what the resolution specification
/// names, and over a backend whose queries are total the whole outcome is
/// the specification's.
pub trait PathResolver<F: FsRead + FsLink>: Send + Sync {
    /// Resolve a path to canonical form: all symlinks resolved, `.` and
    /// `..` normalized, every component required to exist.
    fn canonicalize(&self, path: &VfsPath, fs: &F) -> (r: Result<VfsPath, FsError>)
        ensures
            r matches Ok(q) ==> canonicalize_spec(fs.entry_map(), path@) == Ok::<
                Seq<CompView>,
                ResolveErr,
            >(q@),
            fs.queries_total() ==> resolve_outcome_matches(
                r,
                canonicalize_spec(fs.entry_map(), path@),
            ),
    ;

    /// Like [`canonicalize`](PathResolver::canonicalize), but the final
    /// component need not exist.
    fn soft_canonicalize(&self, path: &VfsPath, fs: &F) -> (r: Result<VfsPath, FsError>)
        ensures
            r matches Ok(q) ==> soft_canonicalize_spec(fs.entry_map(), path@) == Ok::<
                Seq<CompView>,
                ResolveErr,
            >(q@),
            fs.queries_total() ==> resolve_outcome_matches(
                r,
                soft_canonicalize_spec(fs.entry_map(), path@),
            ),
    ;
}

/// The default resolution strategy: the component-by-component walk.
#[derive(Debug, Clone, Copy)]
pub struct IterativeResolver;

impl<F: FsRead + FsLink> PathResolver<F> for IterativeResolver {
    fn canonicalize(&self, path: &VfsPath, fs: &F) -> (r: Result<VfsPath, FsError>) {
        default_canonicalize(fs, path)
    }

    fn soft_canonicalize(&self, path: &VfsPath, fs: &F) -> (r: Result<VfsPath, FsError>) {
        default_soft_canonicalize(fs, path)
    }
}

} // verus!
