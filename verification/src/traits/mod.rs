//! The filesystem trait hierarchy.
//!
//! Backends implement the small component traits; the composite traits
//! ([`Fs`], [`FsFull`], [`FsFuse`], [`FsPosix`]) come for free through
//! blanket implementations.

use vstd::prelude::*;

mod fs_dir;
mod fs_handles;
mod fs_inode;
mod fs_link;
mod fs_lock;
mod fs_path;
mod fs_permissions;
mod fs_read;
mod fs_stats;
mod fs_sync;
mod fs_write;
mod fs_xattr;

pub use fs_dir::{first_error_at, FsDir, ReadDirIter};
pub use fs_handles::FsHandles;
pub use fs_inode::FsInode;
pub use fs_link::FsLink;
pub use fs_lock::FsLock;
pub use fs_path::{
    canonicalize_spec, default_canonicalize, default_soft_canonicalize,
    lemma_canonicalize_idempotent, lemma_canonicalize_is_normalize,
    lemma_relative_target_joins_parent, lemma_root_parent_absorbed,
    lemma_soft_appends_final, lemma_two_node_cycle_is_loop, normalize_path, plain_walk, prefixes_resolved, resolve_components,
    resolve_err_matches, resolve_outcome_matches, resolve_path_internal, resolve_path_spec,
    resolved_shape, soft_canonicalize_spec, FsPath, ResolveErr, MAX_SYMLINK_DEPTH,
};
pub use fs_permissions::FsPermissions;
pub use fs_read::FsRead;
pub use fs_stats::FsStats;
pub use fs_sync::FsSync;
pub use fs_write::FsWrite;
pub use fs_xattr::FsXattr;

verus! {

/// Basic filesystem: reading, writing and directory operations.
/// Implemented automatically for any type with the three component
/// traits.
pub trait Fs: FsRead + FsWrite + FsDir {

}

impl<T: FsRead + FsWrite + FsDir> Fs for T {

}

/// Full filesystem: [`Fs`] plus links, permissions, synchronization and
/// statistics.
pub trait FsFull: Fs + FsLink + FsPermissions + FsSync + FsStats {

}

impl<T: Fs + FsLink + FsPermissions + FsSync + FsStats> FsFull for T {

}

/// FUSE-mountable filesystem: [`FsFull`] plus inode-based operations.
pub trait FsFuse: FsFull + FsInode {

}

impl<T: FsFull + FsInode> FsFuse for T {

}

/// Full POSIX-compatible filesystem: [`FsFuse`] plus handle-based I/O,
/// file locking and extended attributes.
pub trait FsPosix: FsFuse + FsHandles + FsLock + FsXattr {

}

impl<T: FsFuse + FsHandles + FsLock + FsXattr> FsPosix for T {

}

} // verus!
