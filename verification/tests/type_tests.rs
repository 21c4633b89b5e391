use anyfs_backend::FileType;
use anyfs_backend::Handle;
use anyfs_backend::LockType;
use anyfs_backend::Metadata;
use anyfs_backend::OpenFlags;
use anyfs_backend::Permissions;
use anyfs_backend::ROOT_INODE;

#[test]
fn file_type_equality() {
    assert_eq!(FileType::File, FileType::File);
    assert_ne!(FileType::File, FileType::Directory);
}

#[test]
fn metadata_is_file() {
    let m = Metadata { file_type: FileType::File, ..Default::default() };
    assert!(m.is_file());
    assert!(!m.is_dir());
    assert!(!m.is_symlink());
}

#[test]
fn metadata_is_dir() {
    let m = Metadata { file_type: FileType::Directory, ..Default::default() };
    assert!(!m.is_file());
    assert!(m.is_dir());
    assert!(!m.is_symlink());
}

#[test]
fn metadata_is_symlink() {
    let m = Metadata { file_type: FileType::Symlink, ..Default::default() };
    assert!(!m.is_file());
    assert!(!m.is_dir());
    assert!(m.is_symlink());
}

#[test]
fn permissions_from_mode() {
    let p = Permissions::from_mode(0o755);
    assert_eq!(p.mode(), 0o755);
}

#[test]
fn permissions_from_mode_masks_extra_bits() {
    let p = Permissions::from_mode(0o100755);
    assert_eq!(p.mode(), 0o755);
}

#[test]
fn permissions_readonly() {
    let readonly = Permissions::from_mode(0o444);
    assert!(readonly.readonly());

    let writable = Permissions::from_mode(0o644);
    assert!(!writable.readonly());
}

#[test]
fn permissions_defaults() {
    assert_eq!(Permissions::default_file().mode(), 0o644);
    assert_eq!(Permissions::default_dir().mode(), 0o755);
}

#[test]
fn open_flags_constants() {
    assert!(OpenFlags::read_only().read);
    assert!(!OpenFlags::read_only().write);
    assert!(!OpenFlags::read_only().create);

    assert!(!OpenFlags::write_only().read);
    assert!(OpenFlags::write_only().write);
    assert!(OpenFlags::write_only().create);
    assert!(OpenFlags::write_only().truncate);

    assert!(OpenFlags::read_write().read);
    assert!(OpenFlags::read_write().write);
    assert!(!OpenFlags::read_write().create);

    assert!(OpenFlags::append_only().write);
    assert!(OpenFlags::append_only().create);
    assert!(OpenFlags::append_only().append);
    assert!(!OpenFlags::append_only().truncate);
}

#[test]
fn lock_type_equality() {
    assert_eq!(LockType::Shared, LockType::Shared);
    assert_eq!(LockType::Exclusive, LockType::Exclusive);
    assert_ne!(LockType::Shared, LockType::Exclusive);
}

#[test]
fn root_inode_is_one() {
    assert_eq!(ROOT_INODE, 1);
}

#[test]
fn handle_equality() {
    assert_eq!(Handle(42), Handle(42));
    assert_ne!(Handle(1), Handle(2));
}
