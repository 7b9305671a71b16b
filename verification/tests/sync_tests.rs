use os_glue::sync::mutex::try_lock;
use os_glue::sync::TryLock;
use os_glue::sys::riot::mutex::{try_lock as kernel_try_lock, MUTEX_ACQUIRED, MUTEX_HELD};

#[test]
fn kernel_answer_to_try_lock() {
    assert_eq!(MUTEX_ACQUIRED, 1);
    assert_eq!(MUTEX_HELD, 0);
    assert!(kernel_try_lock(1));
    assert!(!kernel_try_lock(0));
}

#[test]
fn try_lock_on_a_held_lock_would_block() {
    assert_eq!(try_lock(false), Err(TryLock::WouldBlock));
    assert_eq!(try_lock(kernel_try_lock(MUTEX_HELD)), Err(TryLock::WouldBlock));
}

#[test]
fn try_lock_on_a_free_lock_succeeds() {
    assert_eq!(try_lock(true), Ok(()));
    assert_eq!(try_lock(kernel_try_lock(MUTEX_ACQUIRED)), Ok(()));
}

#[test]
fn try_lock_on_a_locked_spin_mutex_would_block() {
    let mutex = spin::Mutex::new(0u32);
    let guard = mutex.lock();
    for _ in 0..3 {
        assert_eq!(try_lock(mutex.try_lock().is_some()), Err(TryLock::WouldBlock));
    }
    assert_eq!(*guard, 0);
}

#[test]
fn try_lock_succeeds_once_the_guard_is_gone() {
    let mutex = spin::Mutex::new(0u32);
    {
        let mut guard = mutex.lock();
        *guard += 1;
        assert_eq!(try_lock(mutex.try_lock().is_some()), Err(TryLock::WouldBlock));
    }
    let second = mutex.try_lock();
    assert_eq!(try_lock(second.is_some()), Ok(()));
    assert_eq!(*second.unwrap(), 1);
}
