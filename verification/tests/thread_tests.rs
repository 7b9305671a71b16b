use os_glue::io::ErrorKind;
use os_glue::sys::riot::thread::{
    panicking, park_timeout, sleep, spawn_inner, Builder, Thread, ThreadId, DEFAULT_STACK_SIZE,
    THREAD_PRIORITY_MAIN,
};
use os_glue::thread::{spawn, Builder as AnyBuilder, BuilderExt, SpawnError};
use os_glue::time::Duration;

#[test]
fn builder_defaults() {
    let request = Builder::new().request();
    assert_eq!(request.name, "rust_thread");
    assert_eq!(request.stack_size, 512);
    assert_eq!(request.stack_size, DEFAULT_STACK_SIZE);
    assert_eq!(request.flags, 0);
    assert_eq!(request.priority, 6);
    assert_eq!(request.priority, THREAD_PRIORITY_MAIN - 1);
    let request = Builder::default().request();
    assert_eq!(request.name, "rust_thread");
    assert_eq!(request.stack_size, 512);
    assert_eq!(request.flags, 0);
    assert_eq!(request.priority, 6);
}

#[test]
fn builder_settings_replace_defaults() {
    let request = Builder::new().name("worker").stack_size(2048).priority(3).flags(8).request();
    assert_eq!(request.name, "worker");
    assert_eq!(request.stack_size, 2048);
    assert_eq!(request.priority, 3);
    assert_eq!(request.flags, 8);
}

#[test]
fn builder_settings_are_independent() {
    let request = Builder::new().priority(0).request();
    assert_eq!(request.name, "rust_thread");
    assert_eq!(request.stack_size, 512);
    assert_eq!(request.priority, 0);
    assert_eq!(request.flags, 0);
    let request = Builder::new().stack_size(64).stack_size(128).request();
    assert_eq!(request.stack_size, 128);
    let request = Builder::new().name("a").flags(1).name("b").request();
    assert_eq!(request.name, "b");
    assert_eq!(request.flags, 1);
}

#[test]
fn stack_has_the_requested_size() {
    let request = Builder::new().stack_size(1024).request();
    let stack = request.stack().unwrap();
    assert_eq!(stack.len(), 1024);
    assert!(stack.iter().all(|byte| *byte == 0));
    let stack = Builder::new().stack_size(1).request().stack().unwrap();
    assert_eq!(stack, vec![0u8]);
}

#[test]
fn default_stack_has_512_bytes() {
    let stack = Builder::new().request().stack().unwrap();
    assert_eq!(stack.len(), 512);
    assert!(stack.capacity() >= 512);
    assert_eq!(stack, vec![0u8; 512]);
}

#[test]
fn stack_size_that_is_not_positive_fails_to_spawn() {
    for size in [0, -1, -512, i32::MIN] {
        let request = Builder::new().stack_size(size).request();
        assert_eq!(request.stack(), Err(SpawnError::SpawnFailed));
    }
}

#[test]
fn spawn_inner_makes_a_handle_for_a_positive_id() {
    let handle = spawn_inner(5, vec![0u8; 512]).unwrap();
    assert_eq!(handle.thread().id(), ThreadId(5));
    assert!(!handle.is_finished());
    let handle = spawn_inner(i16::MAX, vec![0u8; 64]).unwrap();
    assert_eq!(handle.thread().id(), ThreadId(i16::MAX));
}

#[test]
fn handle_owns_the_stack_given_to_the_kernel() {
    let mut stack = Builder::new().stack_size(256).request().stack().unwrap();
    stack[0] = 0xa5;
    stack[255] = 0x5a;
    let address = stack.as_ptr();
    let handle = spawn_inner(7, stack).unwrap();
    assert_eq!(handle.stack_buffer().as_ptr(), address);
    assert_eq!(handle.stack_buffer().len(), 256);
    assert_eq!(handle.stack_buffer()[0], 0xa5);
    assert_eq!(handle.stack_buffer()[255], 0x5a);
    let done = handle.complete();
    assert_eq!(done.stack_buffer().as_ptr(), address);
    assert_eq!(done.stack_buffer().len(), 256);
    assert_eq!(done.thread().id(), ThreadId(7));
}

#[test]
fn join_gives_the_result_once_the_thread_has_ended() {
    let handle = spawn_inner(5, vec![0u8; 512]).unwrap();
    let done = handle.complete();
    assert!(done.is_finished());
    assert_eq!(done.join(), ());
}

#[test]
fn spawn_inner_fails_without_an_id() {
    assert_eq!(spawn_inner(0, vec![0u8; 8]).unwrap_err(), SpawnError::SpawnFailed);
    assert_eq!(spawn_inner(-1, vec![0u8; 8]).unwrap_err(), SpawnError::SpawnFailed);
    assert_eq!(spawn_inner(i16::MIN, Vec::new()).unwrap_err(), SpawnError::SpawnFailed);
}

#[test]
fn thread_knows_its_id() {
    assert_eq!(Thread::new(ThreadId(3)).id(), ThreadId(3));
}

#[test]
fn timed_waits_are_not_supported() {
    assert_eq!(sleep(Duration::new(1, 0)).unwrap_err().kind(), ErrorKind::NotSupported);
    assert_eq!(sleep(Duration::new(0, 0)).unwrap_err().kind(), ErrorKind::NotSupported);
    assert_eq!(park_timeout(Duration::new(0, 1)).unwrap_err().kind(), ErrorKind::NotSupported);
}

#[test]
fn threads_never_unwind() {
    assert!(!panicking());
}

/// A builder that runs the work at once, on the caller's thread, and refuses
/// a stack of more than a kilobyte.
#[derive(Debug, PartialEq)]
struct Inline {
    name: &'static str,
    stack_size: i32,
}

impl BuilderExt for Inline {
    type JoinHandle = (&'static str, i32);

    fn new() -> Self {
        Inline { name: "inline", stack_size: 0 }
    }

    fn name(self, name: &'static str) -> Self {
        Inline { name, ..self }
    }

    fn stack_size(self, stack_size: i32) -> Self {
        Inline { stack_size, ..self }
    }

    fn spawn<F>(self, f: F) -> Result<Self::JoinHandle, SpawnError>
    where
        F: FnOnce() -> (),
        F: Send + 'static,
    {
        if self.stack_size > 1024 {
            return Err(SpawnError::SpawnFailed);
        }
        f();
        Ok((self.name, self.stack_size))
    }
}

#[test]
fn builder_ext_defaults_leave_the_builder_alone() {
    let builder = Inline::new().priority(3).flags(7);
    assert_eq!(builder, Inline { name: "inline", stack_size: 0 });
}

#[test]
fn generic_builder_forwards_to_the_backend() {
    let builder = AnyBuilder::<Inline>::new().name("named").stack_size(16).priority(1).flags(2);
    let ran = std::sync::Arc::new(std::sync::atomic::AtomicBool::new(false));
    let flag = ran.clone();
    let handle = builder.spawn(move || flag.store(true, std::sync::atomic::Ordering::SeqCst));
    assert_eq!(handle, Ok(("named", 16)));
    assert!(ran.load(std::sync::atomic::Ordering::SeqCst));
    let refused = AnyBuilder::<Inline>::new().stack_size(4096).spawn(|| ());
    assert_eq!(refused, Err(SpawnError::SpawnFailed));
}

#[test]
fn spawn_uses_the_builders_defaults() {
    let ran = std::sync::Arc::new(std::sync::atomic::AtomicBool::new(false));
    let flag = ran.clone();
    let handle = spawn::<_, Inline>(move || flag.store(true, std::sync::atomic::Ordering::SeqCst));
    assert_eq!(handle, Ok(("inline", 0)));
    assert!(ran.load(std::sync::atomic::Ordering::SeqCst));
    let handle = spawn::<_, AnyBuilder<Inline>>(|| ());
    assert_eq!(handle, Ok(("inline", 0)));
}
