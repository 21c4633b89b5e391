use std::collections::HashMap;
use std::collections::HashSet;
use std::sync::RwLock;

use anyfs_backend::FsError;
use anyfs_backend::FsLock;
use anyfs_backend::Handle;
use anyfs_backend::LockType;
use anyfs_backend::VfsPath;

/// Lock state for a handle.
#[derive(Clone, Copy, PartialEq, Eq)]
enum LockState {
    Unlocked,
    Shared(usize),
    Exclusive,
}

/// Mock implementation of FsLock for testing.
struct MockLockFs {
    locks: RwLock<HashMap<u64, LockState>>,
    valid_handles: RwLock<HashSet<u64>>,
}

impl MockLockFs {
    fn new() -> Self {
        Self { locks: RwLock::new(HashMap::new()), valid_handles: RwLock::new(HashSet::new()) }
    }

    fn add_handle(&self, handle: u64) {
        self.valid_handles.write().unwrap().insert(handle);
    }
}

impl FsLock for MockLockFs {
    fn lock(&self, handle: Handle, lock_type: LockType) -> Result<(), FsError> {
        if !self.valid_handles.read().unwrap().contains(&handle.0) {
            return Err(FsError::InvalidHandle { handle });
        }

        let mut locks = self.locks.write().unwrap();
        let state = locks.entry(handle.0).or_insert(LockState::Unlocked);

        match (*state, lock_type) {
            (LockState::Unlocked, LockType::Shared) => {
                *state = LockState::Shared(1);
                Ok(())
            }
            (LockState::Unlocked, LockType::Exclusive) => {
                *state = LockState::Exclusive;
                Ok(())
            }
            (LockState::Shared(n), LockType::Shared) => {
                *state = LockState::Shared(n + 1);
                Ok(())
            }
            (LockState::Shared(_), LockType::Exclusive) => {
                // a real implementation would block; for testing, fail
                Err(FsError::Conflict { path: VfsPath::empty() })
            }
            (LockState::Exclusive, _) => {
                // a real implementation would block; for testing, fail
                Err(FsError::Conflict { path: VfsPath::empty() })
            }
        }
    }

    fn try_lock(&self, handle: Handle, lock_type: LockType) -> Result<bool, FsError> {
        if !self.valid_handles.read().unwrap().contains(&handle.0) {
            return Err(FsError::InvalidHandle { handle });
        }

        let mut locks = self.locks.write().unwrap();
        let state = locks.entry(handle.0).or_insert(LockState::Unlocked);

        match (*state, lock_type) {
            (LockState::Unlocked, LockType::Shared) => {
                *state = LockState::Shared(1);
                Ok(true)
            }
            (LockState::Unlocked, LockType::Exclusive) => {
                *state = LockState::Exclusive;
                Ok(true)
            }
            (LockState::Shared(n), LockType::Shared) => {
                *state = LockState::Shared(n + 1);
                Ok(true)
            }
            (LockState::Shared(_), LockType::Exclusive) => Ok(false),
            (LockState::Exclusive, _) => Ok(false),
        }
    }

    fn unlock(&self, handle: Handle) -> Result<(), FsError> {
        if !self.valid_handles.read().unwrap().contains(&handle.0) {
            return Err(FsError::InvalidHandle { handle });
        }

        let mut locks = self.locks.write().unwrap();
        let state = locks.entry(handle.0).or_insert(LockState::Unlocked);

        match *state {
            LockState::Unlocked => Ok(()),
            LockState::Shared(1) => {
                *state = LockState::Unlocked;
                Ok(())
            }
            LockState::Shared(n) => {
                *state = LockState::Shared(n - 1);
                Ok(())
            }
            LockState::Exclusive => {
                *state = LockState::Unlocked;
                Ok(())
            }
        }
    }
}

#[test]
fn lock_shared_succeeds() {
    let fs = MockLockFs::new();
    fs.add_handle(1);

    fs.lock(Handle(1), LockType::Shared).unwrap();
}

#[test]
fn lock_exclusive_succeeds() {
    let fs = MockLockFs::new();
    fs.add_handle(1);

    fs.lock(Handle(1), LockType::Exclusive).unwrap();
}

#[test]
fn lock_invalid_handle_fails() {
    let fs = MockLockFs::new();
    let result = fs.lock(Handle(999), LockType::Shared);
    assert!(matches!(result, Err(FsError::InvalidHandle { .. })));
}

#[test]
fn multiple_shared_locks_succeed() {
    let fs = MockLockFs::new();
    fs.add_handle(1);

    fs.lock(Handle(1), LockType::Shared).unwrap();
    fs.lock(Handle(1), LockType::Shared).unwrap();
    fs.lock(Handle(1), LockType::Shared).unwrap();
}

#[test]
fn try_lock_returns_false_when_blocked() {
    let fs = MockLockFs::new();
    fs.add_handle(1);

    fs.lock(Handle(1), LockType::Exclusive).unwrap();
    let result = fs.try_lock(Handle(1), LockType::Shared).unwrap();
    assert!(!result);
}

#[test]
fn unlock_releases_lock() {
    let fs = MockLockFs::new();
    fs.add_handle(1);

    fs.lock(Handle(1), LockType::Exclusive).unwrap();
    fs.unlock(Handle(1)).unwrap();

    // can be acquired again now
    let result = fs.try_lock(Handle(1), LockType::Exclusive).unwrap();
    assert!(result);
}

#[test]
fn unlock_invalid_handle_fails() {
    let fs = MockLockFs::new();
    let result = fs.unlock(Handle(999));
    assert!(matches!(result, Err(FsError::InvalidHandle { .. })));
}
