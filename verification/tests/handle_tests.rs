use std::collections::HashMap;
use std::sync::atomic::{AtomicU64, Ordering};
use std::sync::RwLock;

use anyfs_backend::FsError;
use anyfs_backend::FsHandles;
use anyfs_backend::Handle;
use anyfs_backend::OpenFlags;
use anyfs_backend::VfsPath;

/// Information about an open file handle.
struct OpenFile {
    data: Vec<u8>,
    flags: OpenFlags,
}

/// Mock implementation of FsHandles for testing.
struct MockHandleFs {
    next_handle: AtomicU64,
    handles: RwLock<HashMap<u64, OpenFile>>,
    files: RwLock<HashMap<String, Vec<u8>>>,
}

impl MockHandleFs {
    fn new() -> Self {
        Self {
            next_handle: AtomicU64::new(1),
            handles: RwLock::new(HashMap::new()),
            files: RwLock::new(HashMap::new()),
        }
    }

    fn create_file(&self, path: &VfsPath, data: Vec<u8>) {
        self.files.write().unwrap().insert(path.render(), data);
    }
}

impl FsHandles for MockHandleFs {
    fn open(&self, path: &VfsPath, flags: OpenFlags) -> Result<Handle, FsError> {
        let files = self.files.read().unwrap();

        let data = if flags.create {
            if flags.truncate {
                Vec::new()
            } else {
                files.get(&path.render()).cloned().unwrap_or_default()
            }
        } else {
            files
                .get(&path.render())
                .cloned()
                .ok_or_else(|| FsError::NotFound { path: path.clone() })?
        };

        drop(files);

        let handle_id = self.next_handle.fetch_add(1, Ordering::SeqCst);
        self.handles.write().unwrap().insert(handle_id, OpenFile { data, flags });

        Ok(Handle(handle_id))
    }

    fn read_at(&self, handle: Handle, buf: &mut [u8], offset: u64) -> Result<usize, FsError> {
        let handles = self.handles.read().unwrap();
        let open_file = handles.get(&handle.0).ok_or(FsError::InvalidHandle { handle })?;

        if !open_file.flags.read {
            return Err(FsError::PermissionDenied {
                path: VfsPath::empty(),
                operation: "read_at",
            });
        }

        let offset = offset as usize;
        if offset >= open_file.data.len() {
            return Ok(0);
        }

        let available = open_file.data.len() - offset;
        let to_read = buf.len().min(available);
        buf[..to_read].copy_from_slice(&open_file.data[offset..offset + to_read]);
        Ok(to_read)
    }

    fn write_at(&self, handle: Handle, data: &[u8], offset: u64) -> Result<usize, FsError> {
        let mut handles = self.handles.write().unwrap();
        let open_file = handles.get_mut(&handle.0).ok_or(FsError::InvalidHandle { handle })?;

        if !open_file.flags.write {
            return Err(FsError::PermissionDenied {
                path: VfsPath::empty(),
                operation: "write_at",
            });
        }

        let offset = offset as usize;
        let end = offset + data.len();

        if end > open_file.data.len() {
            open_file.data.resize(end, 0);
        }

        open_file.data[offset..end].copy_from_slice(data);
        Ok(data.len())
    }

    fn close(&self, handle: Handle) -> Result<(), FsError> {
        self.handles
            .write()
            .unwrap()
            .remove(&handle.0)
            .map(|_| ())
            .ok_or(FsError::InvalidHandle { handle })
    }
}

#[test]
fn open_existing_file() {
    let fs = MockHandleFs::new();
    fs.create_file(&VfsPath::parse("/test.txt"), b"hello".to_vec());

    let handle = fs.open(&VfsPath::parse("/test.txt"), OpenFlags::read_only()).unwrap();
    assert_eq!(handle.0, 1);
    fs.close(handle).unwrap();
}

#[test]
fn open_nonexistent_file_fails() {
    let fs = MockHandleFs::new();
    let result = fs.open(&VfsPath::parse("/missing.txt"), OpenFlags::read_only());
    assert!(matches!(result, Err(FsError::NotFound { .. })));
}

#[test]
fn open_with_create() {
    let fs = MockHandleFs::new();
    let handle = fs.open(&VfsPath::parse("/new.txt"), OpenFlags::write_only()).unwrap();
    fs.close(handle).unwrap();
}

#[test]
fn read_at_returns_data() {
    let fs = MockHandleFs::new();
    fs.create_file(&VfsPath::parse("/test.txt"), b"hello world".to_vec());

    let handle = fs.open(&VfsPath::parse("/test.txt"), OpenFlags::read_only()).unwrap();
    let mut buf = [0u8; 5];
    let n = fs.read_at(handle, &mut buf, 0).unwrap();
    assert_eq!(n, 5);
    assert_eq!(&buf, b"hello");
    fs.close(handle).unwrap();
}

#[test]
fn read_at_with_offset() {
    let fs = MockHandleFs::new();
    fs.create_file(&VfsPath::parse("/test.txt"), b"hello world".to_vec());

    let handle = fs.open(&VfsPath::parse("/test.txt"), OpenFlags::read_only()).unwrap();
    let mut buf = [0u8; 5];
    let n = fs.read_at(handle, &mut buf, 6).unwrap();
    assert_eq!(n, 5);
    assert_eq!(&buf, b"world");
    fs.close(handle).unwrap();
}

#[test]
fn read_at_past_eof_returns_zero() {
    let fs = MockHandleFs::new();
    fs.create_file(&VfsPath::parse("/test.txt"), b"hi".to_vec());

    let handle = fs.open(&VfsPath::parse("/test.txt"), OpenFlags::read_only()).unwrap();
    let mut buf = [0u8; 5];
    let n = fs.read_at(handle, &mut buf, 100).unwrap();
    assert_eq!(n, 0);
    fs.close(handle).unwrap();
}

#[test]
fn read_without_read_permission_fails() {
    let fs = MockHandleFs::new();
    fs.create_file(&VfsPath::parse("/test.txt"), b"hello".to_vec());

    // Open with write-only
    let flags = OpenFlags { read: false, write: true, create: false, truncate: false, append: false };
    let handle = fs.open(&VfsPath::parse("/test.txt"), flags).unwrap();
    let mut buf = [0u8; 5];
    let result = fs.read_at(handle, &mut buf, 0);
    assert!(matches!(result, Err(FsError::PermissionDenied { .. })));
    fs.close(handle).unwrap();
}

#[test]
fn write_at_appends_data() {
    let fs = MockHandleFs::new();
    let handle = fs.open(&VfsPath::parse("/new.txt"), OpenFlags::write_only()).unwrap();

    let n = fs.write_at(handle, b"hello", 0).unwrap();
    assert_eq!(n, 5);

    // Read back to verify
    let handles = fs.handles.read().unwrap();
    let open_file = handles.get(&handle.0).unwrap();
    assert_eq!(&open_file.data, b"hello");
    drop(handles);

    fs.close(handle).unwrap();
}

#[test]
fn write_without_write_permission_fails() {
    let fs = MockHandleFs::new();
    fs.create_file(&VfsPath::parse("/test.txt"), b"hello".to_vec());

    let handle = fs.open(&VfsPath::parse("/test.txt"), OpenFlags::read_only()).unwrap();
    let result = fs.write_at(handle, b"new data", 0);
    assert!(matches!(result, Err(FsError::PermissionDenied { .. })));
    fs.close(handle).unwrap();
}

#[test]
fn close_invalid_handle_fails() {
    let fs = MockHandleFs::new();
    let result = fs.close(Handle(999));
    assert!(matches!(result, Err(FsError::InvalidHandle { .. })));
}

#[test]
fn close_then_use_fails() {
    let fs = MockHandleFs::new();
    fs.create_file(&VfsPath::parse("/test.txt"), b"hello".to_vec());

    let handle = fs.open(&VfsPath::parse("/test.txt"), OpenFlags::read_only()).unwrap();
    fs.close(handle).unwrap();

    // Using a closed handle should fail
    let mut buf = [0u8; 5];
    let result = fs.read_at(handle, &mut buf, 0);
    assert!(matches!(result, Err(FsError::InvalidHandle { .. })));
}
