//! Locks that tasks wait for.
pub mod exact;
pub mod laws;
pub mod mutex;
pub mod rwlock;

pub use self::mutex::{AsyncMutex, LockFuture, LockGuard, RcLockFuture, RcLockGuard};
pub use self::rwlock::{
    RcReadLockFuture, RcReadLockGuard, RcWriteLockFuture, RcWriteLockGuard, ReadLockFuture, RwLock,
    RwLockReadGuard, RwLockWriteGuard, WriteLockFuture,
};
