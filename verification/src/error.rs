//! Error type for filesystem operations.

use vstd::prelude::*;

use crate::path::VfsPath;
use crate::types::Handle;

verus! {

/// Filesystem error type.  Each variant carries the context that matters
/// for it: the offending path, the operation attempted, or the limit hit.
///
/// Path resolution itself raises only two of these kinds: `NotFound` when a
/// component does not exist, and `InvalidData` when a symlink loop is
/// detected (and when a non-symlink is handed to a target-read query).
#[derive(Debug)]
#[non_exhaustive]
pub enum FsError {
    /// Path does not exist.
    NotFound {
        /// The path that was not found.
        path: VfsPath,
    },
    /// A threat was detected (such as path traversal or malicious content).
    ThreatDetected {
        /// The path where the threat was detected.
        path: VfsPath,
        /// Description of the threat.
        reason: String,
    },
    /// Path already exists when it should not.
    AlreadyExists {
        /// The path that already exists.
        path: VfsPath,
        /// The operation that failed.
        operation: &'static str,
    },
    /// Expected a file but found something else.
    NotAFile {
        /// The path that is not a file.
        path: VfsPath,
    },
    /// Expected a directory but found something else.
    NotADirectory {
        /// The path that is not a directory.
        path: VfsPath,
    },
    /// Directory is not empty when it should be.
    DirectoryNotEmpty {
        /// The path to the non-empty directory.
        path: VfsPath,
    },
    /// Inode does not exist.
    InodeNotFound {
        /// The inode number that was not found.
        inode: u64,
    },
    /// File handle is invalid or closed.
    InvalidHandle {
        /// The invalid handle.
        handle: Handle,
    },
    /// Extended attribute not found.
    XattrNotFound {
        /// The path where the attribute was not found.
        path: VfsPath,
        /// The attribute name that was not found.
        name: String,
    },
    /// Permission denied for an operation.
    PermissionDenied {
        /// The path where permission was denied.
        path: VfsPath,
        /// The operation that was denied.
        operation: &'static str,
    },
    /// Access denied with a reason.
    AccessDenied {
        /// The path where access was denied.
        path: VfsPath,
        /// The reason for denial.
        reason: String,
    },
    /// Filesystem is read-only.
    ReadOnly {
        /// The operation that was attempted.
        operation: &'static str,
    },
    /// Feature is not enabled.
    FeatureNotEnabled {
        /// The feature that is not enabled.
        feature: &'static str,
        /// The operation that requires the feature.
        operation: &'static str,
    },
    /// Quota exceeded.
    QuotaExceeded {
        /// The quota limit.
        limit: u64,
        /// The amount requested.
        requested: u64,
        /// The current usage.
        usage: u64,
    },
    /// File size limit exceeded.
    FileSizeExceeded {
        /// The path to the file.
        path: VfsPath,
        /// The actual size.
        size: u64,
        /// The size limit.
        limit: u64,
    },
    /// Rate limit exceeded.
    RateLimitExceeded {
        /// The rate limit.
        limit: u32,
        /// The time window in seconds.
        window_secs: u64,
    },
    /// Invalid data encountered.
    InvalidData {
        /// The path with invalid data.
        path: VfsPath,
        /// Details about the invalid data.
        details: String,
    },
    /// Corrupted data detected.
    CorruptedData {
        /// The path with corrupted data.
        path: VfsPath,
        /// Details about the corruption.
        details: String,
    },
    /// Data integrity check failed.
    IntegrityError {
        /// The path that failed the integrity check.
        path: VfsPath,
    },
    /// Serialization error.
    Serialization(String),
    /// Deserialization error.
    Deserialization(String),
    /// Operation is not supported.
    NotSupported {
        /// The unsupported operation.
        operation: &'static str,
    },
    /// Invalid password provided.
    InvalidPassword,
    /// Conflict detected (such as a concurrent modification).
    Conflict {
        /// The path with a conflict.
        path: VfsPath,
    },
    /// Generic backend error.
    Backend(String),
    /// I/O error with context.
    Io {
        /// The operation that failed.
        operation: &'static str,
        /// The path involved in the operation.
        path: VfsPath,
        /// The underlying I/O error.
        source: std::io::Error,
    },
}

impl FsError {
    /// A human-readable description of the error, in the shape the error
    /// kinds are usually reported.
    pub fn message(&self) -> (r: String)
        ensures
            self matches FsError::NotFound { path } ==> r@ == "not found: "@
                + crate::path::render_spec(path@),
            self matches FsError::ThreatDetected { path, reason } ==> r@ == "threat detected: "@
                + reason@ + " in "@ + crate::path::render_spec(path@),
            self matches FsError::AlreadyExists { path, operation } ==> r@ == operation@
                + ": already exists: "@ + crate::path::render_spec(path@),
            self matches FsError::NotAFile { path } ==> r@ == "not a file: "@
                + crate::path::render_spec(path@),
            self matches FsError::NotADirectory { path } ==> r@ == "not a directory: "@
                + crate::path::render_spec(path@),
            self matches FsError::DirectoryNotEmpty { path } ==> r@ == "directory not empty: "@
                + crate::path::render_spec(path@),
            self matches FsError::XattrNotFound { path, name } ==> r@ == "xattr not found: "@
                + name@ + " on "@ + crate::path::render_spec(path@),
            self matches FsError::PermissionDenied { path, operation } ==> r@ == operation@
                + ": permission denied: "@ + crate::path::render_spec(path@),
            self matches FsError::AccessDenied { path, reason } ==> r@ == "access denied: "@
                + crate::path::render_spec(path@) + " ("@ + reason@ + ")"@,
            self matches FsError::ReadOnly { operation } ==> r@ == "read-only filesystem: "@
                + operation@,
            self matches FsError::FeatureNotEnabled { feature, operation } ==> r@ == operation@
                + ": feature not enabled: "@ + feature@,
            self matches FsError::InvalidData { path, details } ==> r@ == "invalid data: "@
                + crate::path::render_spec(path@) + " ("@ + details@ + ")"@,
            self matches FsError::CorruptedData { path, details } ==> r@ == "corrupted data: "@
                + crate::path::render_spec(path@) + " ("@ + details@ + ")"@,
            self matches FsError::IntegrityError { path } ==> r@ == "integrity error: "@
                + crate::path::render_spec(path@),
            self matches FsError::Serialization(details) ==> r@ == "serialization error: "@
                + details@,
            self matches FsError::Deserialization(details) ==> r@ == "deserialization error: "@
                + details@,
            self matches FsError::NotSupported { operation } ==> r@
                == "operation not supported: "@ + operation@,
            self matches FsError::InvalidPassword ==> r@ == "invalid password"@,
            self matches FsError::Conflict { path } ==> r@ == "conflict: "@
                + crate::path::render_spec(path@),
            self matches FsError::Backend(details) ==> r@ == "backend error: "@ + details@,
    {
        match self {
            FsError::NotFound { path } => {
                let mut s = String::from_str("not found: ");
                s.append(path.render().as_str());
                s
            },
            FsError::ThreatDetected { path, reason } => {
                let mut s = String::from_str("threat detected: ");
                s.append(reason.as_str());
                s.append(" in ");
                s.append(path.render().as_str());
                s
            },
            FsError::AlreadyExists { path, operation } => {
                let mut s = String::from_str(operation);
                s.append(": already exists: ");
                s.append(path.render().as_str());
                s
            },
            FsError::NotAFile { path } => {
                let mut s = String::from_str("not a file: ");
                s.append(path.render().as_str());
                s
            },
            FsError::NotADirectory { path } => {
                let mut s = String::from_str("not a directory: ");
                s.append(path.render().as_str());
                s
            },
            FsError::DirectoryNotEmpty { path } => {
                let mut s = String::from_str("directory not empty: ");
                s.append(path.render().as_str());
                s
            },
            FsError::InodeNotFound { inode } => {
                let mut s = String::from_str("inode not found: ");
                s.append(inode.to_string().as_str());
                s
            },
            FsError::InvalidHandle { handle } => {
                let mut s = String::from_str("invalid handle: ");
                s.append(handle.0.to_string().as_str());
                s
            },
            FsError::XattrNotFound { path, name } => {
                let mut s = String::from_str("xattr not found: ");
                s.append(name.as_str());
                s.append(" on ");
                s.append(path.render().as_str());
                s
            },
            FsError::PermissionDenied { path, operation } => {
                let mut s = String::from_str(operation);
                s.append(": permission denied: ");
                s.append(path.render().as_str());
                s
            },
            FsError::AccessDenied { path, reason } => {
                let mut s = String::from_str("access denied: ");
                s.append(path.render().as_str());
                s.append(" (");
                s.append(reason.as_str());
                s.append(")");
                s
            },
            FsError::ReadOnly { operation } => {
                let mut s = String::from_str("read-only filesystem: ");
                s.append(operation);
                s
            },
            FsError::FeatureNotEnabled { feature, operation } => {
                let mut s = String::from_str(operation);
                s.append(": feature not enabled: ");
                s.append(feature);
                s
            },
            FsError::QuotaExceeded { limit, requested, usage } => {
                let mut s = String::from_str("quota exceeded: limit ");
                s.append(limit.to_string().as_str());
                s.append(", requested ");
                s.append(requested.to_string().as_str());
                s.append(", usage ");
                s.append(usage.to_string().as_str());
                s
            },
            FsError::FileSizeExceeded { path, size, limit } => {
                let mut s = String::from_str("file size exceeded: ");
                s.append(path.render().as_str());
                s.append(" (");
                s.append(size.to_string().as_str());
                s.append(" > ");
                s.append(limit.to_string().as_str());
                s.append(")");
                s
            },
            FsError::RateLimitExceeded { limit, window_secs } => {
                let mut s = String::from_str("rate limit exceeded: ");
                s.append(limit.to_string().as_str());
                s.append("/s (window: ");
                s.append(window_secs.to_string().as_str());
                s.append("s)");
                s
            },
            FsError::InvalidData { path, details } => {
                let mut s = String::from_str("invalid data: ");
                s.append(path.render().as_str());
                s.append(" (");
                s.append(details.as_str());
                s.append(")");
                s
            },
            FsError::CorruptedData { path, details } => {
                let mut s = String::from_str("corrupted data: ");
                s.append(path.render().as_str());
                s.append(" (");
                s.append(details.as_str());
                s.append(")");
                s
            },
            FsError::IntegrityError { path } => {
                let mut s = String::from_str("integrity error: ");
                s.append(path.render().as_str());
                s
            },
            FsError::Serialization(details) => {
                let mut s = String::from_str("serialization error: ");
                s.append(details.as_str());
                s
            },
            FsError::Deserialization(details) => {
                let mut s = String::from_str("deserialization error: ");
                s.append(details.as_str());
                s
            },
            FsError::NotSupported { operation } => {
                let mut s = String::from_str("operation not supported: ");
                s.append(operation);
                s
            },
            FsError::InvalidPassword => String::from_str("invalid password"),
            FsError::Conflict { path } => {
                let mut s = String::from_str("conflict: ");
                s.append(path.render().as_str());
                s
            },
            FsError::Backend(details) => {
                let mut s = String::from_str("backend error: ");
                s.append(details.as_str());
                s
            },
            FsError::Io { operation, path, source } => {
                let mut s = String::from_str(operation);
                s.append(" failed for ");
                s.append(path.render().as_str());
                s.append(": ");
                s.append(source.to_string().as_str());
                s
            },
        }
    }
}

#[verifier::external_type_specification]
#[verifier::external_body]
pub struct ExIoError(std::io::Error);

/// The classes of `std::io::Error` that this crate tells apart when
/// converting one into an [`FsError`].
#[derive(Debug, Clone, Copy, PartialEq, Eq, Structural)]
pub enum IoErrorClass {
    /// The underlying entry was not found.
    NotFound,
    /// Permission was denied.
    PermissionDenied,
    /// The entry already exists.
    AlreadyExists,
    /// Any other kind of I/O failure.
    Other,
}

/// Relies on `std::io::Error::kind` to tell the error kinds this crate
/// distinguishes apart; every kind outside the three named ones falls into
/// `Other`.
#[verifier::external_body]
fn io_error_class(e: &std::io::Error) -> IoErrorClass {
    match e.kind() {
        std::io::ErrorKind::NotFound => IoErrorClass::NotFound,
        std::io::ErrorKind::PermissionDenied => IoErrorClass::PermissionDenied,
        std::io::ErrorKind::AlreadyExists => IoErrorClass::AlreadyExists,
        _ => IoErrorClass::Other,
    }
}

/// The error that one I/O error class maps to.  The three recognised
/// classes map to their specific variants with an empty path; everything
/// else keeps the original error inside the `Io` variant.
pub fn fs_error_for_io_class(class: IoErrorClass, error: std::io::Error) -> (r: FsError)
    ensures
        class is NotFound ==> (r matches FsError::NotFound { path } && path@ == Seq::<
            crate::path::CompView,
        >::empty()),
        class is PermissionDenied ==> (r matches FsError::PermissionDenied { path, operation }
            && path@ == Seq::<crate::path::CompView>::empty() && operation@ == "io"@),
        class is AlreadyExists ==> (r matches FsError::AlreadyExists { path, operation } && path@
            == Seq::<crate::path::CompView>::empty() && operation@ == "io"@),
        class is Other ==> (r matches FsError::Io { operation, path, .. } && path@ == Seq::<
            crate::path::CompView,
        >::empty() && operation@ == "io"@),
{
    match class {
        IoErrorClass::NotFound => FsError::NotFound { path: VfsPath::empty() },
        IoErrorClass::PermissionDenied => FsError::PermissionDenied {
            path: VfsPath::empty(),
            operation: "io",
        },
        IoErrorClass::AlreadyExists => FsError::AlreadyExists {
            path: VfsPath::empty(),
            operation: "io",
        },
        IoErrorClass::Other => FsError::Io { operation: "io", path: VfsPath::empty(), source: error },
    }
}

impl vstd::std_specs::convert::FromSpecImpl<std::io::Error> for FsError {
    open spec fn obeys_from_spec() -> bool {
        false
    }

    open spec fn from_spec(e: std::io::Error) -> FsError {
        arbitrary()
    }
}

impl From<std::io::Error> for FsError {
    /// Common I/O error kinds become their specific variants; every other
    /// kind is kept inside the `Io` variant.
    fn from(error: std::io::Error) -> (r: FsError) {
        let class = io_error_class(&error);
        fs_error_for_io_class(class, error)
    }
}

} // verus!
