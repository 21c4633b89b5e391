use anyfs_backend::normalize_path;
use anyfs_backend::FsError;
use anyfs_backend::FsLink;
use anyfs_backend::FsPath;
use anyfs_backend::MemFs;
use anyfs_backend::VfsPath;

#[test]
fn fs_path_blanket_impl_works() {
    // any backend with the read and symlink queries gets FsPath for free
    let mut fs = MemFs::new();
    fs.add_dir(VfsPath::parse("/test"));
    fs.add_file(VfsPath::parse("/test/file.txt"));

    let result = fs.canonicalize(&VfsPath::parse("/test/file.txt"));
    assert!(result.is_ok());
}

#[test]
fn canonicalize_simple_path() {
    let mut fs = MemFs::new();
    fs.add_dir(VfsPath::parse("/dir"));
    fs.add_file(VfsPath::parse("/dir/file.txt"));

    let result = fs.canonicalize(&VfsPath::parse("/dir/file.txt"));
    assert_eq!(result.unwrap(), VfsPath::parse("/dir/file.txt"));
}

#[test]
fn canonicalize_resolves_dot() {
    let mut fs = MemFs::new();
    fs.add_dir(VfsPath::parse("/dir"));
    fs.add_file(VfsPath::parse("/dir/file.txt"));

    let result = fs.canonicalize(&VfsPath::parse("/dir/./file.txt"));
    assert_eq!(result.unwrap(), VfsPath::parse("/dir/file.txt"));
}

#[test]
fn canonicalize_resolves_dotdot() {
    let mut fs = MemFs::new();
    fs.add_dir(VfsPath::parse("/dir"));
    fs.add_dir(VfsPath::parse("/dir/sub"));
    fs.add_file(VfsPath::parse("/dir/file.txt"));

    let result = fs.canonicalize(&VfsPath::parse("/dir/sub/../file.txt"));
    assert_eq!(result.unwrap(), VfsPath::parse("/dir/file.txt"));
}

#[test]
fn canonicalize_follows_symlink() {
    let mut fs = MemFs::new();
    fs.add_dir(VfsPath::parse("/target"));
    fs.add_file(VfsPath::parse("/target/file.txt"));
    fs.add_symlink(VfsPath::parse("/link"), VfsPath::parse("/target"));

    let result = fs.canonicalize(&VfsPath::parse("/link/file.txt"));
    assert_eq!(result.unwrap(), VfsPath::parse("/target/file.txt"));
}

#[test]
fn canonicalize_follows_relative_symlink() {
    let mut fs = MemFs::new();
    fs.add_dir(VfsPath::parse("/dir"));
    fs.add_dir(VfsPath::parse("/dir/target"));
    fs.add_file(VfsPath::parse("/dir/target/file.txt"));
    fs.add_symlink(VfsPath::parse("/dir/link"), VfsPath::parse("target"));

    let result = fs.canonicalize(&VfsPath::parse("/dir/link/file.txt"));
    assert_eq!(result.unwrap(), VfsPath::parse("/dir/target/file.txt"));
}

#[test]
fn canonicalize_detects_symlink_loop() {
    let mut fs = MemFs::new();
    fs.add_symlink(VfsPath::parse("/loop1"), VfsPath::parse("/loop2"));
    fs.add_symlink(VfsPath::parse("/loop2"), VfsPath::parse("/loop1"));

    let result = fs.canonicalize(&VfsPath::parse("/loop1"));
    assert!(result.is_err());
    if let Err(FsError::InvalidData { details, .. }) = result {
        assert!(details.contains("symlink loop"));
    } else {
        panic!("Expected InvalidData error for symlink loop");
    }
}

#[test]
fn canonicalize_not_found() {
    let fs = MemFs::new();

    let result = fs.canonicalize(&VfsPath::parse("/nonexistent"));
    assert!(matches!(result, Err(FsError::NotFound { .. })));
}

#[test]
fn soft_canonicalize_allows_nonexistent_final() {
    let mut fs = MemFs::new();
    fs.add_dir(VfsPath::parse("/dir"));

    // /dir exists, but /dir/new_file.txt does not
    let result = fs.soft_canonicalize(&VfsPath::parse("/dir/new_file.txt"));
    assert_eq!(result.unwrap(), VfsPath::parse("/dir/new_file.txt"));
}

#[test]
fn soft_canonicalize_resolves_parent_symlink() {
    let mut fs = MemFs::new();
    fs.add_dir(VfsPath::parse("/target"));
    fs.add_symlink(VfsPath::parse("/link"), VfsPath::parse("/target"));

    // /link points at /target, so /link/new.txt resolves to /target/new.txt
    let result = fs.soft_canonicalize(&VfsPath::parse("/link/new.txt"));
    assert_eq!(result.unwrap(), VfsPath::parse("/target/new.txt"));
}

#[test]
fn soft_canonicalize_fails_for_nonexistent_parent() {
    let fs = MemFs::new();
    // /nonexistent does not exist

    let result = fs.soft_canonicalize(&VfsPath::parse("/nonexistent/file.txt"));
    assert!(matches!(result, Err(FsError::NotFound { .. })));
}

#[test]
fn canonicalize_root() {
    let fs = MemFs::new();

    let result = fs.canonicalize(&VfsPath::parse("/"));
    assert_eq!(result.unwrap(), VfsPath::parse("/"));
}

#[test]
fn normalize_path_handles_dots() {
    let result = normalize_path(&VfsPath::parse("/a/./b/../c"));
    assert_eq!(result.unwrap(), VfsPath::parse("/a/c"));
}

#[test]
fn normalize_path_handles_root() {
    let result = normalize_path(&VfsPath::parse("/"));
    assert_eq!(result.unwrap(), VfsPath::parse("/"));
}

#[test]
fn creation_operations_are_not_supported_on_mem_fs() {
    let fs = MemFs::new();
    let result = fs.symlink(&VfsPath::parse("/t"), &VfsPath::parse("/l"));
    assert!(matches!(result, Err(FsError::NotSupported { .. })));
    let result = fs.hard_link(&VfsPath::parse("/t"), &VfsPath::parse("/l"));
    assert!(matches!(result, Err(FsError::NotSupported { .. })));
}

#[test]
fn read_link_on_non_symlink_is_invalid_data() {
    let mut fs = MemFs::new();
    fs.add_file(VfsPath::parse("/file"));

    let result = fs.read_link(&VfsPath::parse("/file"));
    assert!(matches!(result, Err(FsError::InvalidData { .. })));
    let result = fs.read_link(&VfsPath::parse("/missing"));
    assert!(matches!(result, Err(FsError::NotFound { .. })));
}
