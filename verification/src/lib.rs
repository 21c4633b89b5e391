//! Core traits and types for a pluggable virtual filesystem.
//!
//! The heart of the crate is path resolution: walking a path component by
//! component against a backend that can answer existence, entry-type and
//! symlink-target queries, and producing the canonical, symlink-free,
//! `.`/`..`-free absolute path.  Paths are modelled by [`VfsPath`], a plain
//! sequence of components, so that the walk and the purely lexical
//! normalizer can be specified and proved over sequences.

mod error;
mod ext;
mod layer;
mod markers;
mod memfs;
mod model;
mod path;
mod path_resolver;
mod traits;
mod types;

pub use error::{fs_error_for_io_class, FsError, IoErrorClass};
pub use ext::FsExt;
pub use layer::{Layer, LayerExt};
pub use markers::SelfResolving;
pub use memfs::MemFs;
pub use path_resolver::{IterativeResolver, PathResolver};
pub use model::{EntrySpec, FsState};
pub use path::{
    classify_segment, comp_chars, lex_fold, lex_pop, lex_step, normalize_spec, parse_spec,
    render_from, render_spec, scan_segments, CompView, Component, VfsPath,
};
pub use traits::{
    canonicalize_spec, default_canonicalize, default_soft_canonicalize, first_error_at,
    lemma_canonicalize_idempotent, lemma_canonicalize_is_normalize,
    lemma_relative_target_joins_parent, lemma_root_parent_absorbed,
    lemma_soft_appends_final, lemma_two_node_cycle_is_loop, normalize_path, plain_walk,
    prefixes_resolved, resolve_components, resolve_err_matches, resolve_outcome_matches,
    resolve_path_internal, resolve_path_spec,
    resolved_shape, soft_canonicalize_spec, Fs, FsDir, FsFull, FsFuse, FsHandles, FsInode, FsLink,
    FsLock, FsPath, FsPermissions, FsPosix, FsRead, FsStats, FsSync, FsWrite, FsXattr,
    ReadDirIter, ResolveErr, MAX_SYMLINK_DEPTH,
};
pub use types::{
    DirEntry, FileType, Handle, LockType, Metadata, OpenFlags, Permissions, StatFs, Timestamp,
    ROOT_INODE,
};
