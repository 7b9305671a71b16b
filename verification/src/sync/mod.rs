//! Synchronisation primitives.

pub mod mutex;

pub use self::mutex::TryLock;
