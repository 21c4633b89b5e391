//! Fundamental types shared by all filesystem traits.

use vstd::prelude::*;

use crate::path::VfsPath;

verus! {

/// The root directory inode number: inode 1 is reserved for the root
/// directory, so behaviour is consistent across backends.
pub const ROOT_INODE: u64 = 1;

/// The type of a filesystem entry.
#[derive(Debug, Clone, Copy, PartialEq, Eq, Hash, Structural)]
pub enum FileType {
    /// Regular file containing data.
    File,
    /// Directory containing other entries.
    Directory,
    /// Symbolic link pointing to another path.
    Symlink,
}

/// A point in time, counted from the epoch.
#[derive(Debug, Clone, Copy, PartialEq, Eq, Hash, Structural)]
pub struct Timestamp {
    /// Whole seconds since the epoch.
    pub secs: u64,
    /// Nanoseconds within the second.
    pub nanos: u32,
}

impl Default for Timestamp {
    /// The epoch itself.
    fn default() -> (r: Self)
        ensures
            r.secs == 0 && r.nanos == 0,
    {
        Timestamp { secs: 0, nanos: 0 }
    }
}

/// Unix-style permission bits, stored as a mode bitmask: the lower twelve
/// bits are owner, group and other `rwx` triples plus the setuid, setgid
/// and sticky bits.  Its view is the raw mode value.
#[derive(Debug, Clone, Copy, PartialEq, Eq, Hash)]
pub struct Permissions(u32);

impl View for Permissions {
    type V = u32;

    closed spec fn view(&self) -> u32 {
        self.0
    }
}

impl Permissions {
    /// Create permissions from a Unix mode; bits above the permission
    /// bits are masked off.
    pub fn from_mode(mode: u32) -> (r: Self)
        ensures
            r@ == mode & 0o7777,
    {
        Permissions(mode & 0o7777)
    }

    /// The raw mode value.
    pub fn mode(&self) -> (m: u32)
        ensures
            m == self@,
    {
        self.0
    }

    /// Whether these permissions deny writing: no write bit is set for
    /// owner, group or other.
    pub fn readonly(&self) -> (r: bool)
        ensures
            r == ((self@ & 0o222) == 0),
    {
        (self.0 & 0o222) == 0
    }

    /// Default permissions for a new file: read and write for the owner,
    /// read for everyone else.
    pub fn default_file() -> (r: Self)
        ensures
            r@ == 0o644,
    {
        Permissions(0o644)
    }

    /// Default permissions for a new directory: everything for the owner,
    /// read and search for everyone else.
    pub fn default_dir() -> (r: Self)
        ensures
            r@ == 0o755,
    {
        Permissions(0o755)
    }
}

impl Default for Permissions {
    /// The default file permissions.
    fn default() -> (r: Self)
        ensures
            r@ == 0o644,
    {
        Permissions::default_file()
    }
}

/// Complete metadata for a filesystem entry.
#[derive(Debug, Clone, Copy)]
pub struct Metadata {
    /// Type of the entry (file, directory, symlink).
    pub file_type: FileType,
    /// Size in bytes.
    pub size: u64,
    /// Permissions.
    pub permissions: Permissions,
    /// Creation time.
    pub created: Timestamp,
    /// Last modification time.
    pub modified: Timestamp,
    /// Last access time.
    pub accessed: Timestamp,
    /// Inode number (unique identifier within the filesystem).
    pub inode: u64,
    /// Number of hard links.
    pub nlink: u64,
}

impl Metadata {
    /// Whether this is a regular file.
    pub fn is_file(&self) -> (r: bool)
        ensures
            r == (self.file_type is File),
    {
        self.file_type == FileType::File
    }

    /// Whether this is a directory.
    pub fn is_dir(&self) -> (r: bool)
        ensures
            r == (self.file_type is Directory),
    {
        self.file_type == FileType::Directory
    }

    /// Whether this is a symbolic link.
    pub fn is_symlink(&self) -> (r: bool)
        ensures
            r == (self.file_type is Symlink),
    {
        self.file_type == FileType::Symlink
    }
}

impl Default for Metadata {
    /// A zero-sized file with the default file permissions, timestamps at
    /// the epoch, inode zero and one link.
    fn default() -> (r: Self)
        ensures
            r.file_type is File,
            r.size == 0,
            r.permissions@ == 0o644,
            r.created.secs == 0 && r.created.nanos == 0,
            r.modified.secs == 0 && r.modified.nanos == 0,
            r.accessed.secs == 0 && r.accessed.nanos == 0,
            r.inode == 0,
            r.nlink == 1,
    {
        Metadata {
            file_type: FileType::File,
            size: 0,
            permissions: Permissions::default_file(),
            created: Timestamp { secs: 0, nanos: 0 },
            modified: Timestamp { secs: 0, nanos: 0 },
            accessed: Timestamp { secs: 0, nanos: 0 },
            inode: 0,
            nlink: 1,
        }
    }
}

/// A single entry from a directory listing.
#[derive(Debug, Clone)]
pub struct DirEntry {
    /// Name of the entry (the final name only, not the full path).
    pub name: String,
    /// Full path to the entry.
    pub path: VfsPath,
    /// Type of the entry.
    pub file_type: FileType,
    /// Size in bytes.
    pub size: u64,
    /// Inode number.
    pub inode: u64,
}

/// Filesystem-level statistics, as the POSIX `statvfs` call reports them.
/// Capacity fields set to zero mean that no limit applies.
#[derive(Debug, Clone, Copy)]
pub struct StatFs {
    /// Total size in bytes (0 = unlimited).
    pub total_bytes: u64,
    /// Currently used bytes.
    pub used_bytes: u64,
    /// Available bytes for use.
    pub available_bytes: u64,
    /// Total number of inodes (0 = unlimited).
    pub total_inodes: u64,
    /// Number of used inodes.
    pub used_inodes: u64,
    /// Number of available inodes.
    pub available_inodes: u64,
    /// Block size in bytes.
    pub block_size: u64,
    /// Maximum filename length.
    pub max_name_len: u64,
}

impl Default for StatFs {
    /// All fields zero.
    fn default() -> (r: Self)
        ensures
            r.total_bytes == 0 && r.used_bytes == 0 && r.available_bytes == 0,
            r.total_inodes == 0 && r.used_inodes == 0 && r.available_inodes == 0,
            r.block_size == 0 && r.max_name_len == 0,
    {
        StatFs {
            total_bytes: 0,
            used_bytes: 0,
            available_bytes: 0,
            total_inodes: 0,
            used_inodes: 0,
            available_inodes: 0,
            block_size: 0,
            max_name_len: 0,
        }
    }
}

/// Opaque file handle for POSIX-style operations.  The value is
/// backend-defined and carries no meaning of its own.
#[derive(Debug, Clone, Copy, PartialEq, Eq, Hash, Structural)]
pub struct Handle(pub u64);

/// Flags for opening a file.
#[derive(Debug, Clone, Copy)]
pub struct OpenFlags {
    /// Open for reading.
    pub read: bool,
    /// Open for writing.
    pub write: bool,
    /// Create the file if it does not exist.
    pub create: bool,
    /// Truncate the file to zero length.
    pub truncate: bool,
    /// Append to the end of the file.
    pub append: bool,
}

impl Default for OpenFlags {
    /// All flags off.
    fn default() -> (r: Self)
        ensures
            !r.read && !r.write && !r.create && !r.truncate && !r.append,
    {
        OpenFlags { read: false, write: false, create: false, truncate: false, append: false }
    }
}

impl OpenFlags {
    /// Read-only access.
    pub fn read_only() -> (r: Self)
        ensures
            r.read && !r.write && !r.create && !r.truncate && !r.append,
    {
        OpenFlags { read: true, write: false, create: false, truncate: false, append: false }
    }

    /// Write access with create and truncate.
    pub fn write_only() -> (r: Self)
        ensures
            !r.read && r.write && r.create && r.truncate && !r.append,
    {
        OpenFlags { read: false, write: true, create: true, truncate: true, append: false }
    }

    /// Read and write access; the file must already exist.
    pub fn read_write() -> (r: Self)
        ensures
            r.read && r.write && !r.create && !r.truncate && !r.append,
    {
        OpenFlags { read: true, write: true, create: false, truncate: false, append: false }
    }

    /// Append mode: writes go to the end of the file.
    pub fn append_only() -> (r: Self)
        ensures
            !r.read && r.write && r.create && !r.truncate && r.append,
    {
        OpenFlags { read: false, write: true, create: true, truncate: false, append: true }
    }
}

/// Type of file lock: shared locks admit many readers at once, an
/// exclusive lock admits one holder and nobody else.
#[derive(Debug, Clone, Copy, PartialEq, Eq, Hash, Structural)]
pub enum LockType {
    /// Shared lock: many readers allowed at the same time.
    Shared,
    /// Exclusive lock: a single holder, all other requests blocked.
    Exclusive,
}

} // verus!
