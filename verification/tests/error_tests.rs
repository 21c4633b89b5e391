use anyfs_backend::FsError;
use anyfs_backend::VfsPath;

#[test]
fn fs_error_not_found_display() {
    let err = FsError::NotFound { path: VfsPath::parse("/missing") };
    assert_eq!(err.message(), "not found: /missing");
}

#[test]
fn fs_error_already_exists_display() {
    let err = FsError::AlreadyExists { path: VfsPath::parse("/exists"), operation: "create" };
    assert_eq!(err.message(), "create: already exists: /exists");
}

#[test]
fn fs_error_quota_exceeded_display() {
    let err = FsError::QuotaExceeded { limit: 100, requested: 50, usage: 80 };
    assert!(err.message().contains("100"));
    assert!(err.message().contains("50"));
    assert!(err.message().contains("80"));
}

#[test]
fn fs_error_from_io_not_found() {
    let io_err = std::io::Error::new(std::io::ErrorKind::NotFound, "test");
    let fs_err = FsError::from(io_err);
    assert!(matches!(fs_err, FsError::NotFound { .. }));
}

#[test]
fn fs_error_from_io_permission_denied() {
    let io_err = std::io::Error::new(std::io::ErrorKind::PermissionDenied, "test");
    let fs_err = FsError::from(io_err);
    assert!(matches!(fs_err, FsError::PermissionDenied { .. }));
}

#[test]
fn fs_error_from_io_already_exists() {
    let io_err = std::io::Error::new(std::io::ErrorKind::AlreadyExists, "test");
    let fs_err = FsError::from(io_err);
    assert!(matches!(fs_err, FsError::AlreadyExists { .. }));
}

#[test]
fn fs_error_from_io_other() {
    let io_err = std::io::Error::new(std::io::ErrorKind::Other, "test");
    let fs_err = FsError::from(io_err);
    assert!(matches!(fs_err, FsError::Io { .. }));
}

#[test]
fn fs_error_not_a_directory_display() {
    let err = FsError::NotADirectory { path: VfsPath::parse("/file.txt") };
    assert_eq!(err.message(), "not a directory: /file.txt");
}

#[test]
fn fs_error_read_only_display() {
    let err = FsError::ReadOnly { operation: "write" };
    assert_eq!(err.message(), "read-only filesystem: write");
}

#[test]
fn fs_error_invalid_password_display() {
    let err = FsError::InvalidPassword;
    assert_eq!(err.message(), "invalid password");
}

#[test]
fn fs_error_not_supported_display() {
    let err = FsError::NotSupported { operation: "symlink" };
    assert_eq!(err.message(), "operation not supported: symlink");
}

#[test]
fn fs_error_backend_display() {
    let err = FsError::Backend("store offline".to_string());
    assert_eq!(err.message(), "backend error: store offline");
}

#[test]
fn fs_error_invalid_data_display() {
    let err = FsError::InvalidData {
        path: VfsPath::parse("/bad"),
        details: "truncated record".to_string(),
    };
    assert_eq!(err.message(), "invalid data: /bad (truncated record)");
}
